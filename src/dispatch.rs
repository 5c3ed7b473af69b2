//! Pairing queued uploads with the uniform locations the driver reported;
//! an upload whose uniform has no location is dropped, by design.
use vstd::prelude::*;

use crate::uniform::{upload_views, BindUniform, Upload, UploadValue};

verus! {

/// The uploads among the first `n` that have a location, each paired with it,
/// in order.
pub open spec fn located<L>(ups: Seq<(Seq<char>, UploadValue)>, locs: Seq<Option<L>>, n: nat) -> Seq<(L, UploadValue)>
    decreases n,
{
    if n == 0 {
        Seq::empty()
    } else {
        let rest = located(ups, locs, (n - 1) as nat);
        match locs[n - 1] {
            Some(l) => rest.push((l, ups[n - 1].1)),
            None => rest,
        }
    }
}

/// The shorter of two lengths.
pub open spec fn min_len(a: nat, b: nat) -> nat {
    if a <= b { a } else { b }
}

/// Pairs each upload with the location found for its name (`locations[i]`
/// for `uploads[i]`) and keeps those that have one, in order. Entries past
/// the shorter list are ignored.
pub fn resolve_uploads<L: Copy>(uploads: &Vec<Upload>, locations: &Vec<Option<L>>) -> (r: Vec<(L, UploadValue)>)
    ensures
        r@ == located(
            upload_views(uploads@),
            locations@,
            min_len(uploads@.len(), locations@.len()),
        ),
{
    let n: usize = if uploads.len() <= locations.len() {
        uploads.len()
    } else {
        locations.len()
    };
    let mut out: Vec<(L, UploadValue)> = Vec::new();
    let mut i: usize = 0;
    while i < n
        invariant
            n == min_len(uploads@.len(), locations@.len()),
            i <= n,
            out@ == located(upload_views(uploads@), locations@, i as nat),
        decreases n - i,
    {
        match locations[i] {
            Some(l) => {
                out.push((l, uploads[i].value));
            },
            None => {},
        }
        i = i + 1;
    }
    out
}

/// When no uniform named by the uploads has a location, nothing reaches the driver.
pub proof fn located_none_absent<L>(ups: Seq<(Seq<char>, UploadValue)>, locs: Seq<Option<L>>, n: nat)
    requires
        n <= locs.len(),
        forall|i: int| 0 <= i < locs.len() ==> locs[i] is None,
    ensures
        located(ups, locs, n).len() == 0,
    decreases n,
{
    if n > 0 {
        located_none_absent(ups, locs, (n - 1) as nat);
    }
}

/// Binding a value of any bindable type to uniforms that have no location
/// makes no driver upload.
pub proof fn absent_location_uploads_nothing<T: BindUniform, L>(value: T, name: Seq<char>, locs: Seq<Option<L>>)
    requires
        forall|i: int| 0 <= i < locs.len() ==> locs[i] is None,
    ensures
        located(
            value.uploads(name),
            locs,
            min_len(value.uploads(name).len(), locs.len()),
        ).len() == 0,
{
    located_none_absent(value.uploads(name), locs, min_len(value.uploads(name).len(), locs.len()));
}

} // verus!
