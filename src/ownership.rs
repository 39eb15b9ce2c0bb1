//! The admission check for guest closures, and the marks on the values they
//! capture that say who may read them.

use vstd::prelude::*;

verus! {

/// The bit of a tag that allows the host to read the tagged value.
pub const OWN_INFO_READ_MASK: u8 = 0b1_0000;

/// Who may currently read, write or move a guest value.
///
/// The bits are, from high to low: read, write, move, collectable, owned by the VM.
#[derive(Clone, Copy, Debug, PartialEq, Eq, Structural)]
pub enum OwnershipTag {
    VmOwned,
    SharedFromHost,
    MutSharedFromHost,
    SharedToHost,
    MutSharedToHost,
    MovedToHost,
}

impl OwnershipTag {
    pub open spec fn spec_bits(self) -> u8 {
        match self {
            OwnershipTag::VmOwned => 0b1_1111u8,
            OwnershipTag::SharedFromHost => 0b1_0010u8,
            OwnershipTag::MutSharedFromHost => 0b1_1010u8,
            OwnershipTag::SharedToHost => 0b1_0001u8,
            OwnershipTag::MutSharedToHost => 0b0_0001u8,
            OwnershipTag::MovedToHost => 0b0_0010u8,
        }
    }

    /// The host may read a value whose tag has the read bit set.
    pub open spec fn spec_readable(self) -> bool {
        self.spec_bits() & OWN_INFO_READ_MASK != 0
    }

    pub fn bits(self) -> (r: u8)
        ensures
            r == self.spec_bits(),
    {
        match self {
            OwnershipTag::VmOwned => 0b1_1111u8,
            OwnershipTag::SharedFromHost => 0b1_0010u8,
            OwnershipTag::MutSharedFromHost => 0b1_1010u8,
            OwnershipTag::SharedToHost => 0b1_0001u8,
            OwnershipTag::MutSharedToHost => 0b0_0001u8,
            OwnershipTag::MovedToHost => 0b0_0010u8,
        }
    }

    pub fn is_readable(self) -> (r: bool)
        ensures
            r == self.spec_readable(),
    {
        self.bits() & OWN_INFO_READ_MASK != 0
    }
}

/// Which tags carry the read bit.
pub proof fn lemma_readable_tags(t: OwnershipTag)
    ensures
        t.spec_readable() <==> (t is VmOwned || t is SharedFromHost || t is MutSharedFromHost
            || t is SharedToHost),
{
    assert(0b1_1111u8 & 0b1_0000u8 != 0) by (bit_vector);
    assert(0b1_0010u8 & 0b1_0000u8 != 0) by (bit_vector);
    assert(0b1_1010u8 & 0b1_0000u8 != 0) by (bit_vector);
    assert(0b1_0001u8 & 0b1_0000u8 != 0) by (bit_vector);
    assert(0b0_0001u8 & 0b1_0000u8 == 0) by (bit_vector);
    assert(0b0_0010u8 & 0b1_0000u8 == 0) by (bit_vector);
}

/// One value captured by a guest closure: a handle that identifies the guest
/// value, and the value's current ownership tag.
#[derive(Clone, Copy, Debug, PartialEq, Eq, Structural)]
pub struct CaptureSlot {
    pub value: usize,
    pub tag: OwnershipTag,
}

/// A guest-VM closure: the function it runs and the values it captured, in
/// capture order.
#[derive(Debug)]
pub struct GuestClosure {
    pub capture: Vec<CaptureSlot>,
    pub func_id: usize,
}

pub struct ClosureView {
    pub capture: Seq<CaptureSlot>,
    pub func_id: usize,
}

impl View for GuestClosure {
    type V = ClosureView;

    open spec fn view(&self) -> ClosureView {
        ClosureView { capture: self.capture@, func_id: self.func_id }
    }
}

/// Why a closure was refused.
#[derive(Clone, Copy, Debug, PartialEq, Eq, Structural)]
pub enum OwnershipError {
    /// The captured value at position `slot` (handle `object`) lacks the bits of
    /// `expected_mask`.
    OwnershipCheckFailure { slot: usize, object: usize, expected_mask: u8 },
}

pub open spec fn all_readable(s: Seq<CaptureSlot>) -> bool {
    forall|i: int| 0 <= i < s.len() ==> (#[trigger] s[i]).tag.spec_readable()
}

/// `k` is the position of the first unreadable slot of `s`.
pub open spec fn is_first_unreadable(s: Seq<CaptureSlot>, k: int) -> bool {
    &&& 0 <= k < s.len()
    &&& !s[k].tag.spec_readable()
    &&& forall|j: int| 0 <= j < k ==> (#[trigger] s[j]).tag.spec_readable()
}

/// The same slot with its tag handed over to the host.
pub open spec fn shared_to_host(c: CaptureSlot) -> CaptureSlot {
    CaptureSlot { value: c.value, tag: OwnershipTag::SharedToHost }
}

/// The closure after a successful admission: every slot shared to the host.
pub open spec fn admitted(c: ClosureView) -> ClosureView {
    ClosureView { capture: c.capture.map_values(|s: CaptureSlot| shared_to_host(s)), func_id: c.func_id }
}

/// What admission does to the candidate: it succeeds exactly when every slot is
/// readable, and then retags every slot; otherwise nothing changes.
pub open spec fn admission_effect(before: ClosureView, after: ClosureView, ok: bool) -> bool {
    if all_readable(before.capture) {
        ok && after == admitted(before)
    } else {
        !ok && after == before
    }
}

/// The error that names the first unreadable slot of `s`.
pub open spec fn reports_first_unreadable(s: Seq<CaptureSlot>, e: OwnershipError) -> bool {
    match e {
        OwnershipError::OwnershipCheckFailure { slot, object, expected_mask } => {
            &&& is_first_unreadable(s, slot as int)
            &&& object == s[slot as int].value
            &&& expected_mask == OWN_INFO_READ_MASK
        },
    }
}

/// A copy of the closure: the same function and the same capture list. The
/// captured values are handles, so the copy aliases the same guest values.
pub fn dangerous_clone_closure(closure: &GuestClosure) -> (r: GuestClosure)
    ensures
        r@ == closure@,
{
    let mut capture: Vec<CaptureSlot> = Vec::new();
    let n: usize = closure.capture.len();
    let mut i: usize = 0;
    while i < n
        invariant
            n == closure.capture@.len(),
            i <= n,
            capture@ == closure.capture@.subrange(0, i as int),
        decreases n - i,
    {
        capture.push(closure.capture[i]);
        i = i + 1;
        assert(capture@ =~= closure.capture@.subrange(0, i as int));
    }
    assert(capture@ =~= closure.capture@);
    GuestClosure { capture, func_id: closure.func_id }
}

/// Admission of a closure into host storage. Every captured slot must be readable; if one is not, the
/// first such slot is reported and the candidate is left as it was. Otherwise
/// every slot of the candidate is retagged as shared to the host, and a copy of
/// the retagged closure is returned for the host to keep.
pub fn admit_closure(candidate: &mut GuestClosure) -> (r: Result<GuestClosure, OwnershipError>)
    ensures
        admission_effect(old(candidate)@, final(candidate)@, r is Ok),
        r matches Ok(c) ==> c@ == final(candidate)@,
        r matches Err(e) ==> reports_first_unreadable(old(candidate)@.capture, e),
{
    let n: usize = candidate.capture.len();
    let mut i: usize = 0;
    while i < n
        invariant
            n == candidate.capture@.len(),
            i <= n,
            forall|j: int| 0 <= j < i ==> (#[trigger] candidate.capture@[j]).tag.spec_readable(),
        decreases n - i,
    {
        let slot = candidate.capture[i];
        if !slot.tag.is_readable() {
            let e = OwnershipError::OwnershipCheckFailure {
                slot: i,
                object: slot.value,
                expected_mask: OWN_INFO_READ_MASK,
            };
            assert(!all_readable(candidate.capture@));
            return Err(e);
        }
        i = i + 1;
    }
    let ghost before = candidate@;
    assert(all_readable(before.capture));
    let mut k: usize = 0;
    while k < n
        invariant
            n == candidate.capture@.len(),
            n == before.capture.len(),
            k <= n,
            candidate.func_id == before.func_id,
            forall|j: int| 0 <= j < k ==> candidate.capture@[j] == shared_to_host(#[trigger] before.capture[j]),
            forall|j: int| k <= j < n ==> candidate.capture@[j] == #[trigger] before.capture[j],
        decreases n - k,
    {
        let v = candidate.capture[k].value;
        candidate.capture.set(k, CaptureSlot { value: v, tag: OwnershipTag::SharedToHost });
        k = k + 1;
    }
    assert(candidate.capture@ =~= admitted(before).capture);
    Ok(dangerous_clone_closure(candidate))
}

/// After admission, every captured slot is shared to the host
/// exactly when admission succeeded, and a refused closure keeps all its tags.
pub proof fn lemma_admission_all_or_nothing(before: ClosureView, after: ClosureView, ok: bool)
    requires
        admission_effect(before, after, ok),
    ensures
        ok <==> (forall|i: int| 0 <= i < after.capture.len() ==> (#[trigger] after.capture[i]).tag
            == OwnershipTag::SharedToHost),
        !ok ==> after == before,
{
    if all_readable(before.capture) {
        assert forall|i: int| 0 <= i < after.capture.len() implies (#[trigger] after.capture[i]).tag
            == OwnershipTag::SharedToHost by {
            assert(after.capture[i] == shared_to_host(before.capture[i]));
        }
    } else {
        let k = choose|k: int| 0 <= k < before.capture.len() && !(#[trigger] before.capture[k]).tag.spec_readable();
        lemma_readable_tags(before.capture[k].tag);
        lemma_readable_tags(OwnershipTag::SharedToHost);
        assert(after.capture[k].tag != OwnershipTag::SharedToHost);
    }
}

/// A refusal is determined by the capture list: when several slots are
/// unreadable, the one reported is the first of them, so two reports agree.
pub proof fn lemma_refusal_names_first_slot(s: Seq<CaptureSlot>, e1: OwnershipError, e2: OwnershipError)
    requires
        reports_first_unreadable(s, e1),
        reports_first_unreadable(s, e2),
    ensures
        e1 == e2,
{
    let OwnershipError::OwnershipCheckFailure { slot: k1, .. } = e1;
    let OwnershipError::OwnershipCheckFailure { slot: k2, .. } = e2;
    if k1 < k2 {
        assert(s[k1 as int].tag.spec_readable());
    } else if k2 < k1 {
        assert(s[k2 as int].tag.spec_readable());
    }
}

/// A closure with an unreadable slot is always refused with some report.
pub proof fn lemma_unreadable_has_first(s: Seq<CaptureSlot>)
    requires
        !all_readable(s),
    ensures
        exists|k: int| is_first_unreadable(s, k),
    decreases s.len(),
{
    if s[0].tag.spec_readable() {
        let t = s.subrange(1, s.len() as int);
        assert(!all_readable(t)) by {
            let i = choose|i: int| 0 <= i < s.len() && !(#[trigger] s[i]).tag.spec_readable();
            assert(t[i - 1] == s[i]);
        }
        lemma_unreadable_has_first(t);
        let k = choose|k: int| is_first_unreadable(t, k);
        assert forall|j: int| 0 <= j < k + 1 implies (#[trigger] s[j]).tag.spec_readable() by {
            if j > 0 {
                assert(s[j] == t[j - 1]);
            }
        }
        assert(is_first_unreadable(s, k + 1));
    } else {
        assert(is_first_unreadable(s, 0));
    }
}

} // verus!
