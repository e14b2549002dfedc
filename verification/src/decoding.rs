use vstd::prelude::*;
use crate::status::HFTStatus;

verus! {

/// An owned decoding result: the reconstructed text of one id sequence,
/// held as its UTF-8 bytes. At the boundary the caller holds it as an
/// opaque handle; its byte length is fixed at creation and queried, never
/// mutated. The length always fits the signed 32-bit counts that cross
/// the boundary.
pub struct HFTDecoding {
    value: Vec<u8>,
}

impl View for HFTDecoding {
    type V = Seq<u8>;

    closed spec fn view(&self) -> Seq<u8> {
        self.value@
    }
}

impl HFTDecoding {
    #[verifier::type_invariant]
    spec fn length_fits(self) -> bool {
        self.value@.len() <= i32::MAX as int
    }

    /// Wraps reconstructed text bytes into a decoding handle. Refuses a
    /// text whose byte length could not be reported across the boundary.
    pub fn new(value: Vec<u8>) -> (r: Option<HFTDecoding>)
        ensures
            value@.len() <= i32::MAX as int ==> (r matches Some(d) && d@ == value@),
            value@.len() > i32::MAX as int ==> r is None,
    {
        if value.len() <= i32::MAX as usize {
            Some(HFTDecoding { value })
        } else {
            None
        }
    }
}

/// Releases a decoding handle: the handle is consumed and its storage
/// freed. An absent handle is an invalid argument, not a no-op, so that
/// caller bugs surface early.
pub fn hft_decoding_release(decoding: Option<HFTDecoding>) -> (r: HFTStatus)
    ensures
        r == HFTStatus::Success <==> decoding is Some,
        decoding is None ==> r == HFTStatus::InvalidArgument,
{
    match decoding {
        Some(_) => HFTStatus::Success,
        None => HFTStatus::InvalidArgument,
    }
}

/// Reports the byte length of the reconstructed text, so that the caller
/// can size a destination buffer before copying. The count is meaningful
/// only when the status is `Success`; an absent handle yields
/// `InvalidArgument` and a zero count.
pub fn hft_decoding_get_length(decoding: Option<&HFTDecoding>) -> (r: (HFTStatus, i32))
    ensures
        decoding is None ==> r == (HFTStatus::InvalidArgument, 0i32),
        decoding matches Some(d) ==> r.0 == HFTStatus::Success && r.1 as int == d@.len(),
{
    match decoding {
        Some(d) => {
            proof {
                use_type_invariant(d);
            }
            (HFTStatus::Success, d.value.len() as i32)
        }
        None => (HFTStatus::InvalidArgument, 0i32),
    }
}

/// Copies the reconstructed text into the caller's buffer and terminates
/// it with a zero byte. The copy happens only if the content fits the
/// buffer together with the terminator (`content length < size`, a strict
/// inequality); otherwise the call fails with `InvalidArgument` and the
/// destination is left fully untouched — there is no partial copy. Bytes
/// of the destination past the terminator are left as they were. The
/// `size` argument is the capacity of the destination buffer, so the
/// buffer must hold at least `size` bytes.
pub fn hft_decoding_get_string(
    decoding: Option<&HFTDecoding>,
    destination: &mut Vec<u8>,
    size: i32,
) -> (r: HFTStatus)
    requires
        size as int <= old(destination)@.len(),
    ensures
        final(destination)@.len() == old(destination)@.len(),
        decoding is None || size <= 0 ==> r == HFTStatus::InvalidArgument && final(destination)@
            == old(destination)@,
        decoding matches Some(d) ==> {
            if d@.len() < size as int {
                r == HFTStatus::Success && final(destination)@ == d@ + seq![0u8] + old(
                    destination,
                )@.skip(d@.len() as int + 1)
            } else {
                r == HFTStatus::InvalidArgument && final(destination)@ == old(destination)@
            }
        },
{
    match decoding {
        Some(d) => {
            if size <= 0 {
                return HFTStatus::InvalidArgument;
            }
            let len = d.value.len();
            if len >= size as usize {
                return HFTStatus::InvalidArgument;
            }
            let mut i: usize = 0;
            while i < len
                invariant
                    i <= len,
                    len < size as int,
                    size as int <= destination@.len(),
                    len == d@.len(),
                    destination@.len() == old(destination)@.len(),
                    destination@ == d@.take(i as int) + old(destination)@.skip(
                        i as int,
                    ),
                decreases len - i,
            {
                let b = d.value[i];
                destination.set(i, b);
                i = i + 1;
                proof {
                    assert(destination@ =~= d@.take(i as int) + old(destination)@.skip(i as int));
                }
            }
            destination.set(len, 0u8);
            proof {
                assert(destination@ =~= d@ + seq![0u8] + old(destination)@.skip(d@.len() as int + 1));
            }
            HFTStatus::Success
        }
        None => HFTStatus::InvalidArgument,
    }
}

} // verus!
