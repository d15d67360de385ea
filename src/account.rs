use vstd::prelude::*;
use vstd::array::{spec_array_fill_for_copy_type, spec_array_update};
use vstd::slice::slice_subrange;

verus! {

/// The longest identity, in bytes, that a ledger address or caller may have.
pub const MAX_IDENTITY_LEN: usize = 29;

/// A caller or ledger address, held as its canonical bytes.
#[derive(Clone, Copy, Debug, PartialEq, Eq, Hash)]
pub struct Identity {
    len: u8,
    bytes: [u8; 29],
}

impl View for Identity {
    type V = Seq<u8>;

    closed spec fn view(&self) -> Seq<u8> {
        self.bytes@.subrange(0, self.len as int)
    }
}

/// The holding slot of an identity with canonical bytes `p`: its length in
/// byte 0, its bytes next, zeros after them.
pub open spec fn slot_bytes(p: Seq<u8>) -> Seq<u8> {
    seq![p.len() as u8] + p + Seq::new((31 - p.len()) as nat, |i: int| 0u8)
}

/// The 32-byte holding slot of `p`.
pub open spec fn slot_of(p: Identity) -> [u8; 32] {
    choose|a: [u8; 32]| a@ == slot_bytes(p@)
}

/// An account on a ledger: an owner and, when present, one of its holding slots.
#[derive(Clone, Copy, Debug, PartialEq, Eq, Hash)]
pub struct Account {
    pub owner: Identity,
    pub subaccount: Option<[u8; 32]>,
}

impl Identity {
    /// At most `MAX_IDENTITY_LEN` bytes are used, and the unused tail is zero,
    /// so that two identities with the same bytes are equal.
    pub closed spec fn canonical(self) -> bool {
        &&& self.len <= 29
        &&& forall|i: int| self.len <= i < 29 ==> self.bytes@[i] == 0
    }

    #[verifier::type_invariant]
    spec fn inv(self) -> bool {
        self.canonical()
    }

    /// Two well-formed identities with the same bytes are the same identity.
    pub proof fn lemma_view_determines(a: Identity, b: Identity)
        requires
            a.canonical(),
            b.canonical(),
            a@ == b@,
        ensures
            a == b,
    {
        assert(a@.len() == a.len as int);
        assert(b@.len() == b.len as int);
        assert(a.len == b.len);
        assert forall|i: int| 0 <= i < 29 implies a.bytes@[i] == b.bytes@[i] by {
            if i < a.len {
                assert(a@[i] == a.bytes@[i]);
                assert(b@[i] == b.bytes@[i]);
            } else {
                assert(a.bytes@[i] == 0);
                assert(b.bytes@[i] == 0);
            }
        }
        assert(a.bytes@ =~= b.bytes@);
        broadcast use vstd::array::axiom_array_ext_equal;
        assert(a.bytes =~= b.bytes);
    }

    /// The identity with the given bytes, or `None` when there are too many.
    pub fn from_slice(s: &[u8]) -> (r: Option<Identity>)
        ensures
            r is Some <==> s@.len() <= MAX_IDENTITY_LEN,
            r matches Some(id) ==> id@ == s@ && id.canonical(),
    {
        if s.len() > MAX_IDENTITY_LEN {
            return None;
        }
        let mut bytes: [u8; 29] = [0u8; 29];
        let mut i: usize = 0;
        while i < s.len()
            invariant
                s@.len() <= 29,
                i <= s@.len(),
                bytes@.len() == 29,
                forall|k: int| 0 <= k < i ==> bytes@[k] == s@[k],
                forall|k: int| i <= k < 29 ==> bytes@[k] == 0,
            decreases s@.len() - i,
        {
            bytes[i] = s[i];
            i = i + 1;
        }
        let id = Identity { len: s.len() as u8, bytes };
        assert(id@ =~= s@);
        Some(id)
    }

    /// The identity's canonical bytes.
    pub fn to_vec(&self) -> (r: Vec<u8>)
        ensures
            r@ == self@,
    {
        proof {
            use_type_invariant(self);
        }
        let mut v: Vec<u8> = Vec::new();
        let n: usize = self.len as usize;
        let mut i: usize = 0;
        while i < n
            invariant
                n == self.len,
                n <= 29,
                i <= n,
                v@ == self.bytes@.subrange(0, i as int),
            decreases n - i,
        {
            v.push(self.bytes[i]);
            assert(v@ =~= self.bytes@.subrange(0, i + 1));
            i = i + 1;
        }
        v
    }
}

/// Relies on `ic_ledger_types::Subaccount::from(Principal)`: byte 0 holds the
/// principal's length, its bytes follow, and the rest of the 32 bytes are zero.
/// `candid::Principal::from_slice` accepts any slice of at most 29 bytes.
#[verifier::external_body]
fn subaccount_from_principal(p: &[u8]) -> (r: [u8; 32])
    requires
        p@.len() <= MAX_IDENTITY_LEN,
    ensures
        r@ == slot_bytes(p@),
{
    ic_ledger_types::Subaccount::from(candid::Principal::from_slice(p)).0
}

/// The holding slot that belongs to `principal` within the intermediary's own
/// accounts on a ledger. Deposits and withdrawals both go through it.
pub fn get_subaccount(principal: Identity) -> (r: [u8; 32])
    ensures
        r@ == slot_bytes(principal@),
        r == slot_of(principal),
        principal.canonical(),
{
    proof {
        use_type_invariant(&principal);
    }
    let len: usize = principal.len as usize;
    let p = principal.bytes.as_slice();
    let s = slice_subrange(p, 0, len);
    assert(s@ =~= principal@);
    let r = subaccount_from_principal(s);
    proof {
        let a = slot_of(principal);
        assert(a@ == slot_bytes(principal@));
        broadcast use vstd::array::axiom_array_ext_equal;
        assert(a =~= r);
    }
    r
}

/// Two identities share a holding slot only when they are the same identity.
pub proof fn lemma_slot_injective(a: Seq<u8>, b: Seq<u8>)
    requires
        a.len() <= MAX_IDENTITY_LEN,
        b.len() <= MAX_IDENTITY_LEN,
        slot_bytes(a) == slot_bytes(b),
    ensures
        a == b,
{
    assert(slot_bytes(a)[0] == a.len() as u8);
    assert(slot_bytes(b)[0] == b.len() as u8);
    assert(a.len() == b.len());
    assert(a =~= slot_bytes(a).subrange(1, 1 + a.len() as int));
    assert(b =~= slot_bytes(b).subrange(1, 1 + b.len() as int));
}

/// Two distinct identities never share a holding slot.
pub proof fn lemma_distinct_identities_distinct_slots(a: Identity, b: Identity)
    requires
        a.canonical(),
        b.canonical(),
        a != b,
    ensures
        slot_of(a) != slot_of(b),
{
    if slot_of(a) == slot_of(b) {
        lemma_slot_of_bytes(a);
        lemma_slot_of_bytes(b);
        lemma_slot_injective(a@, b@);
        Identity::lemma_view_determines(a, b);
    }
}

/// The bytes of the holding slot of a well-formed identity.
proof fn lemma_slot_of_bytes(a: Identity)
    requires
        a.canonical(),
    ensures
        a@.len() <= MAX_IDENTITY_LEN,
        slot_of(a)@ == slot_bytes(a@),
{
    assert(a@.len() == a.len as int);
    lemma_array_of(slot_bytes(a@), 32);
    assert(array_of(slot_bytes(a@), 32)@ =~= slot_bytes(a@));
}

/// An array whose first `n` bytes are those of `s`.
spec fn array_of(s: Seq<u8>, n: nat) -> [u8; 32]
    decreases n,
{
    if n == 0 {
        spec_array_fill_for_copy_type::<u8, 32>(0u8)
    } else {
        spec_array_update(array_of(s, (n - 1) as nat), n - 1, s[n - 1])
    }
}

proof fn lemma_array_of(s: Seq<u8>, n: nat)
    requires
        n <= 32,
        s.len() == 32,
    ensures
        array_of(s, n)@.len() == 32,
        forall|i: int| 0 <= i < n ==> array_of(s, n)@[i] == s[i],
    decreases n,
{
    broadcast use vstd::array::group_array_axioms;
    if n > 0 {
        lemma_array_of(s, (n - 1) as nat);
    }
    let a = array_of(s, n);
    assert(a@.len() == 32);
}

/// The holding slot is a function of the identity alone, and a slot is
/// always 32 bytes long.
pub proof fn lemma_slot_deterministic(a: Seq<u8>, b: Seq<u8>)
    requires
        a.len() <= MAX_IDENTITY_LEN,
        a == b,
    ensures
        slot_bytes(a) == slot_bytes(b),
        slot_bytes(a).len() == 32,
{
}

} // verus!
