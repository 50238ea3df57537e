use crate::span::TextRange;
use std::ops::Range;
use vstd::prelude::*;
use vstd::string::StringSliceAdditionalSpecFns;
use vstd::utf8::{
    encode_utf8, encode_utf8_valid_utf8, is_char_boundary,
    is_char_boundary_iff_not_is_continuation_byte, is_char_boundary_start_end_of_seq,
};

verus! {

/// The range as a pair of bounds from `start` up to `end`.
pub fn convert_range(range: TextRange) -> (r: Range<usize>)
    ensures
        r.start == range.start,
        r.end == range.end,
{
    range.start..range.end
}

/// The part of a text that a range covers. The range lies within the text
/// and neither of its ends cuts a character in two.
pub fn read_exact_from_file(file: &str, range: TextRange) -> (r: String)
    requires
        range.start <= range.end <= file.spec_bytes().len(),
        is_char_boundary(file.spec_bytes(), range.start as int),
        is_char_boundary(file.spec_bytes(), range.end as int),
    ensures
        encode_utf8(r@) == file.spec_bytes().subrange(range.start as int, range.end as int),
{
    let ghost bytes = file.spec_bytes();
    let (head, _) = file.split_at(range.end);
    proof {
        let prefix = head.spec_bytes();
        encode_utf8_valid_utf8(file@);
        encode_utf8_valid_utf8(head@);
        if range.start < range.end {
            is_char_boundary_iff_not_is_continuation_byte(bytes, range.start as int);
            is_char_boundary_iff_not_is_continuation_byte(prefix, range.start as int);
        } else {
            is_char_boundary_start_end_of_seq(prefix);
        }
    }
    let (_, part) = head.split_at(range.start);
    proof {
        assert(part.spec_bytes() =~= bytes.subrange(range.start as int, range.end as int));
    }
    part.to_owned()
}

} // verus!
