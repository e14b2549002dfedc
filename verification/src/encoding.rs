use vstd::prelude::*;
use crate::status::HFTStatus;

verus! {

/// An attention mask holds only zeros and ones: a one marks a real
/// token, a zero marks padding.
pub open spec fn mask_binary(mask: Seq<u32>) -> bool {
    forall|j: int| 0 <= j < mask.len() ==> mask[j] == 0 || #[trigger] mask[j] == 1
}

/// The ghost shape of an encoding result: the three parallel sequences a
/// tokenization of one input string produces.
pub ghost struct EncodingView {
    pub ids: Seq<u32>,
    pub type_ids: Seq<u32>,
    pub attention_mask: Seq<u32>,
}

/// An owned encoding result: the token ids, attention mask and type ids
/// produced by tokenizing one input string. At the boundary the caller
/// holds it as an opaque handle; its length is fixed at creation and
/// queried, never mutated. The three sequences share that one length —
/// the count `hft_encoding_get_length` reports sizes all three copies —
/// and it always fits the signed 32-bit counts that cross the boundary.
pub struct HFTEncoding {
    ids: Vec<u32>,
    type_ids: Vec<u32>,
    attention_mask: Vec<u32>,
}

impl View for HFTEncoding {
    type V = EncodingView;

    closed spec fn view(&self) -> EncodingView {
        EncodingView {
            ids: self.ids@,
            type_ids: self.type_ids@,
            attention_mask: self.attention_mask@,
        }
    }
}

impl HFTEncoding {
    #[verifier::type_invariant]
    spec fn well_formed(self) -> bool {
        &&& self.ids@.len() <= i32::MAX as int
        &&& self.type_ids@.len() == self.ids@.len()
        &&& self.attention_mask@.len() == self.ids@.len()
    }

    /// The condition under which three result sequences make an encoding
    /// handle: one shared length, and an id count the boundary's signed
    /// 32-bit lengths can report.
    pub open spec fn accepts(ids: Seq<u32>, type_ids: Seq<u32>, attention_mask: Seq<u32>) -> bool {
        &&& ids.len() <= i32::MAX as int
        &&& type_ids.len() == ids.len()
        &&& attention_mask.len() == ids.len()
    }

    /// Wraps the three result sequences of one tokenized string into an
    /// encoding handle. Refuses a result whose sequences differ in length
    /// or whose id count could not be reported across the boundary.
    pub fn new(ids: Vec<u32>, type_ids: Vec<u32>, attention_mask: Vec<u32>) -> (r: Option<
        HFTEncoding,
    >)
        ensures
            Self::accepts(ids@, type_ids@, attention_mask@) ==> (r matches Some(e) && e@.ids == ids@
                && e@.type_ids == type_ids@ && e@.attention_mask == attention_mask@),
            !Self::accepts(ids@, type_ids@, attention_mask@) ==> r is None,
    {
        if ids.len() <= i32::MAX as usize && type_ids.len() == ids.len() && attention_mask.len()
            == ids.len() {
            Some(HFTEncoding { ids, type_ids, attention_mask })
        } else {
            None
        }
    }
}

/// Releases an encoding handle: the handle is consumed and its storage
/// freed. An absent handle is an invalid argument, not a no-op, so that
/// caller bugs surface early.
pub fn hft_encoding_release(encoding: Option<HFTEncoding>) -> (r: HFTStatus)
    ensures
        r == HFTStatus::Success <==> encoding is Some,
        encoding is None ==> r == HFTStatus::InvalidArgument,
{
    match encoding {
        Some(_) => HFTStatus::Success,
        None => HFTStatus::InvalidArgument,
    }
}

/// Reports the length of the encoding — its token id count — so that the
/// caller can size destination buffers before copying. The type ids and
/// the attention mask have that same length, so the one reported count
/// sizes all three copies. The count is meaningful only when the status
/// is `Success`; an absent handle yields `InvalidArgument` and a zero
/// count.
pub fn hft_encoding_get_length(encoding: Option<&HFTEncoding>) -> (r: (HFTStatus, i32))
    ensures
        encoding is None ==> r == (HFTStatus::InvalidArgument, 0i32),
        encoding matches Some(e) ==> r.0 == HFTStatus::Success && r.1 as int == e@.ids.len()
            && e@.type_ids.len() == e@.ids.len() && e@.attention_mask.len() == e@.ids.len(),
{
    match encoding {
        Some(e) => {
            proof {
                use_type_invariant(e);
            }
            (HFTStatus::Success, e.ids.len() as i32)
        }
        None => (HFTStatus::InvalidArgument, 0i32),
    }
}

/// What every fixed-arity copy out of an encoding ensures: on success the
/// first `count` elements of the source stand at the front of the
/// destination and the rest of the destination is as it was; on failure
/// the destination is fully untouched.
pub open spec fn copied_prefix(
    source: Seq<u32>,
    before: Seq<u32>,
    after: Seq<u32>,
    count: int,
) -> bool {
    after == source.take(count) + before.skip(count)
}

/// Copies exactly `count` token ids into the caller's buffer. A count
/// smaller than the encoding length truncates; a count that is not
/// positive, or that exceeds the encoding length, is an invalid argument
/// and the destination is left fully untouched. The `count` argument is
/// the arity of the copy, so the buffer must hold at least `count`
/// elements.
pub fn hft_encoding_get_ids(
    encoding: Option<&HFTEncoding>,
    ids_out: &mut Vec<u32>,
    count: i32,
) -> (r: HFTStatus)
    requires
        count as int <= old(ids_out)@.len(),
    ensures
        final(ids_out)@.len() == old(ids_out)@.len(),
        encoding is None || count <= 0 ==> r == HFTStatus::InvalidArgument && final(ids_out)@
            == old(ids_out)@,
        encoding matches Some(e) ==> {
            if 0 < count as int <= e@.ids.len() {
                r == HFTStatus::Success && copied_prefix(
                    e@.ids,
                    old(ids_out)@,
                    final(ids_out)@,
                    count as int,
                )
            } else {
                r == HFTStatus::InvalidArgument && final(ids_out)@ == old(ids_out)@
            }
        },
{
    match encoding {
        Some(e) => copy_prefix(&e.ids, ids_out, count),
        None => HFTStatus::InvalidArgument,
    }
}

/// Copies exactly `count` attention mask elements into the caller's
/// buffer, under the same count contract as the id copy: the mask is as
/// long as the id sequence, so the length reported by
/// `hft_encoding_get_length` is the largest accepted count.
pub fn hft_encoding_get_attention_mask(
    encoding: Option<&HFTEncoding>,
    mask_out: &mut Vec<u32>,
    count: i32,
) -> (r: HFTStatus)
    requires
        count as int <= old(mask_out)@.len(),
    ensures
        final(mask_out)@.len() == old(mask_out)@.len(),
        encoding is None || count <= 0 ==> r == HFTStatus::InvalidArgument && final(mask_out)@
            == old(mask_out)@,
        encoding matches Some(e) ==> e@.attention_mask.len() == e@.ids.len() && {
            if 0 < count as int <= e@.attention_mask.len() {
                r == HFTStatus::Success && copied_prefix(
                    e@.attention_mask,
                    old(mask_out)@,
                    final(mask_out)@,
                    count as int,
                )
            } else {
                r == HFTStatus::InvalidArgument && final(mask_out)@ == old(mask_out)@
            }
        },
{
    match encoding {
        Some(e) => {
            proof {
                use_type_invariant(e);
            }
            copy_prefix(&e.attention_mask, mask_out, count)
        }
        None => HFTStatus::InvalidArgument,
    }
}

/// Copies exactly `count` type ids into the caller's buffer, under the
/// same count contract as the id copy: the type ids are as long as the id
/// sequence, so the length reported by `hft_encoding_get_length` is the
/// largest accepted count.
pub fn hft_encoding_get_type_ids(
    encoding: Option<&HFTEncoding>,
    type_ids_out: &mut Vec<u32>,
    count: i32,
) -> (r: HFTStatus)
    requires
        count as int <= old(type_ids_out)@.len(),
    ensures
        final(type_ids_out)@.len() == old(type_ids_out)@.len(),
        encoding is None || count <= 0 ==> r == HFTStatus::InvalidArgument && final(type_ids_out)@
            == old(type_ids_out)@,
        encoding matches Some(e) ==> e@.type_ids.len() == e@.ids.len() && {
            if 0 < count as int <= e@.type_ids.len() {
                r == HFTStatus::Success && copied_prefix(
                    e@.type_ids,
                    old(type_ids_out)@,
                    final(type_ids_out)@,
                    count as int,
                )
            } else {
                r == HFTStatus::InvalidArgument && final(type_ids_out)@ == old(type_ids_out)@
            }
        },
{
    match encoding {
        Some(e) => {
            proof {
                use_type_invariant(e);
            }
            copy_prefix(&e.type_ids, type_ids_out, count)
        }
        None => HFTStatus::InvalidArgument,
    }
}

/// The shared copy step of the three fixed-arity accessors: moves the
/// first `count` elements of `source` to the front of `destination`, or
/// refuses the count and leaves the destination fully untouched.
fn copy_prefix(source: &Vec<u32>, destination: &mut Vec<u32>, count: i32) -> (r: HFTStatus)
    requires
        count as int <= old(destination)@.len(),
    ensures
        final(destination)@.len() == old(destination)@.len(),
        if 0 < count as int <= source@.len() {
            r == HFTStatus::Success && copied_prefix(
                source@,
                old(destination)@,
                final(destination)@,
                count as int,
            )
        } else {
            r == HFTStatus::InvalidArgument && final(destination)@ == old(destination)@
        },
{
    if count <= 0 {
        return HFTStatus::InvalidArgument;
    }
    let n = count as usize;
    if n > source.len() {
        return HFTStatus::InvalidArgument;
    }
    let mut i: usize = 0;
    while i < n
        invariant
            i <= n,
            n <= source@.len(),
            n <= destination@.len(),
            destination@.len() == old(destination)@.len(),
            destination@ == source@.take(i as int) + old(destination)@.skip(i as int),
        decreases n - i,
    {
        let v = source[i];
        destination.set(i, v);
        i = i + 1;
        proof {
            assert(destination@ =~= source@.take(i as int) + old(destination)@.skip(i as int));
        }
    }
    HFTStatus::Success
}

} // verus!
