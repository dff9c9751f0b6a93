//! Container settings the container driver receives from the library:
//! volume specifications read into source and target.

use vstd::prelude::*;
use crate::proxy::{host_part, lemma_host_part};

verus! {

/// How many colons the text holds.
pub open spec fn colon_count(s: Seq<char>) -> nat
    decreases s.len(),
{
    if s.len() == 0 {
        0
    } else {
        colon_count(s.drop_last()) + if s.last() == ':' {
            1nat
        } else {
            0nat
        }
    }
}

/// The bind mount a volume specification asks for, as (source, target):
/// `host:container` with exactly one colon, else the same path for both.
pub open spec fn volume_mount_spec(volume: Seq<char>) -> (Seq<char>, Seq<char>) {
    if colon_count(volume) == 1 {
        let host = host_part(volume);
        (host, volume.subrange(host.len() as int + 1, volume.len() as int))
    } else {
        (volume, volume)
    }
}

/// Reads a volume specification into (source, target).
pub fn volume_mount(volume: &str) -> (r: (String, String))
    ensures
        (r.0@, r.1@) == volume_mount_spec(volume@),
{
    let n = volume.unicode_len();
    let mut count: usize = 0;
    let mut first: usize = 0;
    let mut i: usize = 0;
    while i < n
        invariant
            n == volume@.len(),
            i <= n,
            count == colon_count(volume@.subrange(0, i as int)),
            count <= i,
            count == 0 ==> forall|k: int| 0 <= k < i ==> volume@[k] != ':',
            count > 0 ==> first < i && volume@[first as int] == ':' && forall|k: int|
                0 <= k < first ==> volume@[k] != ':',
        decreases n - i,
    {
        proof {
            assert(volume@.subrange(0, i + 1).drop_last() =~= volume@.subrange(0, i as int));
        }
        if volume.get_char(i) == ':' {
            if count == 0 {
                first = i;
            }
            count = count + 1;
        }
        i = i + 1;
    }
    assert(volume@.subrange(0, n as int) =~= volume@);
    if count == 1 {
        proof {
            lemma_host_part(volume@, first as int);
        }
        (String::from_str(volume.substring_char(0, first)), String::from_str(volume.substring_char(first + 1, n)))
    } else {
        (String::from_str(volume), String::from_str(volume))
    }
}

} // verus!
