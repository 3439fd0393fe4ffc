use vstd::prelude::*;

verus! {

/// Length in bytes of an account identifier.
pub const ACCOUNT_ID_LEN: usize = 32;

/// A 32-byte account identifier.
#[derive(Clone, Debug, PartialEq, Eq)]
pub struct AccountId {
    pub bytes: Vec<u8>,
}

impl AccountId {
    /// An identifier holds exactly 32 bytes.
    pub open spec fn wf(&self) -> bool {
        self.bytes@.len() == ACCOUNT_ID_LEN
    }

    /// The identifier's bytes.
    pub fn as_bytes(&self) -> (r: &[u8])
        ensures
            r@ == self.bytes@,
    {
        self.bytes.as_slice()
    }
}

/// The last 32 bytes of a storage key: the account it is keyed by.
pub open spec fn spec_account_bytes(key: Seq<u8>) -> Seq<u8> {
    key.subrange(key.len() - ACCOUNT_ID_LEN, key.len() as int)
}

/// Takes the account identifier out of a storage key: its last 32 bytes.
/// A key shorter than that is not a storage key of an account.
pub fn get_account_id_from_storage_key(key: &[u8]) -> (r: AccountId)
    requires
        key@.len() >= ACCOUNT_ID_LEN,
    ensures
        r.wf(),
        r.bytes@ == spec_account_bytes(key@),
{
    let n = key.len();
    let start = n - ACCOUNT_ID_LEN;
    let mut bytes: Vec<u8> = Vec::with_capacity(ACCOUNT_ID_LEN);
    let mut i: usize = start;
    while i < n
        invariant
            n == key@.len(),
            start == n - ACCOUNT_ID_LEN,
            start <= i <= n,
            bytes@ == key@.subrange(start as int, i as int),
        decreases n - i,
    {
        bytes.push(key[i]);
        proof {
            assert(bytes@ =~= key@.subrange(start as int, i + 1));
        }
        i = i + 1;
    }
    AccountId { bytes }
}

/// As `get_account_id_from_storage_key`, with `None` for a key shorter than 32 bytes.
pub fn try_account_id_from_storage_key(key: &[u8]) -> (r: Option<AccountId>)
    ensures
        match r {
            Some(id) => key@.len() >= ACCOUNT_ID_LEN && id.wf() && id.bytes@ == spec_account_bytes(
                key@,
            ),
            None => key@.len() < ACCOUNT_ID_LEN,
        },
{
    if key.len() < ACCOUNT_ID_LEN {
        None
    } else {
        Some(get_account_id_from_storage_key(key))
    }
}

} // verus!
