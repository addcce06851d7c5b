use vstd::prelude::*;

verus! {

/// An on-chain address, identified by the bytes of its canonical text
/// encoding. Two accounts are the same exactly when their bytes agree.
#[derive(Debug)]
pub struct Account {
    bytes: Vec<u8>,
}

impl View for Account {
    type V = Seq<u8>;

    closed spec fn view(&self) -> Seq<u8> {
        self.bytes@
    }
}

/// The identities held by an optional account.
pub open spec fn opt_account_view(a: Option<Account>) -> Option<Seq<u8>> {
    match a {
        Some(acc) => Some(acc@),
        None => None,
    }
}

impl Account {
    /// The account whose identity is `bytes`.
    pub fn new(bytes: Vec<u8>) -> (a: Account)
        ensures
            a@ == bytes@,
    {
        Account { bytes }
    }

    /// The identifying bytes.
    pub fn to_bytes(&self) -> (r: Vec<u8>)
        ensures
            r@ == self@,
    {
        let mut out: Vec<u8> = Vec::new();
        let n = self.bytes.len();
        let mut i: usize = 0;
        while i < n
            invariant
                n == self.bytes.len(),
                i <= n,
                out@ == self.bytes@.subrange(0, i as int),
            decreases n - i,
        {
            out.push(self.bytes[i]);
            i = i + 1;
            assert(out@ =~= self.bytes@.subrange(0, i as int));
        }
        assert(self.bytes@.subrange(0, n as int) =~= self.bytes@);
        out
    }

    /// A second handle on the same account.
    pub fn duplicate(&self) -> (r: Account)
        ensures
            r@ == self@,
    {
        Account { bytes: self.to_bytes() }
    }

    /// Whether `self` and `other` are the same account.
    pub fn same_as(&self, other: &Account) -> (r: bool)
        ensures
            r == (self@ == other@),
    {
        let n = self.bytes.len();
        if n != other.bytes.len() {
            return false;
        }
        let mut i: usize = 0;
        while i < n
            invariant
                n == self.bytes.len(),
                n == other.bytes.len(),
                i <= n,
                forall|j: int| 0 <= j < i ==> self.bytes@[j] == other.bytes@[j],
            decreases n - i,
        {
            if self.bytes[i] != other.bytes[i] {
                return false;
            }
            i = i + 1;
        }
        assert(self.bytes@ =~= other.bytes@);
        true
    }
}

/// Duplicates an optional account.
pub fn duplicate_opt(a: &Option<Account>) -> (r: Option<Account>)
    ensures
        opt_account_view(r) == opt_account_view(*a),
{
    match a {
        Some(acc) => Some(acc.duplicate()),
        None => None,
    }
}

} // verus!
