//! Name normalization of the binding layer: the snake_case name of a remote
//! method becomes the CamelCase name of its request and response variants.

use vstd::prelude::*;
use vstd::string::{is_ascii, is_ascii_spec_bytes, StringSliceAdditionalSpecFns};
use vstd::utf8::{
    encode_utf8, is_ascii_chars, is_leading_byte_width_1, partial_valid_utf8,
    partial_valid_utf8_extend_ascii_block, valid_utf8,
};

use crate::wire::string_from_utf8;

verus! {

/// An ASCII lowercase letter raised to uppercase; any other byte unchanged.
pub open spec fn upper_byte(c: u8) -> u8 {
    if 97 <= c <= 122 {
        (c - 32) as u8
    } else {
        c
    }
}

/// An ASCII uppercase letter lowered to lowercase; any other byte unchanged.
pub open spec fn lower_byte(c: u8) -> u8 {
    if 65 <= c <= 90 {
        (c + 32) as u8
    } else {
        c
    }
}

/// The CamelCase form of snake_case bytes: underscores separate words and
/// are dropped, each word's first byte is raised and the rest are lowered.
/// `start` says whether the next byte begins a word.
pub open spec fn camel_bytes(s: Seq<u8>, start: bool) -> Seq<u8>
    decreases s.len(),
{
    if s.len() == 0 {
        Seq::empty()
    } else if s[0] == 95 {
        camel_bytes(s.skip(1), true)
    } else if start {
        seq![upper_byte(s[0])] + camel_bytes(s.skip(1), false)
    } else {
        seq![lower_byte(s[0])] + camel_bytes(s.skip(1), false)
    }
}

/// The CamelCase name of a snake_case ASCII identifier, as the binding layer
/// names the request and response variants of a method.
pub fn snake_to_camel(ident: &str) -> (r: String)
    requires
        is_ascii(ident),
    ensures
        encode_utf8(r@) == camel_bytes(encode_utf8(ident@), true),
{
    let bytes: &[u8] = ident.as_bytes();
    let ghost full = bytes@;
    proof {
        is_ascii_spec_bytes(ident);
        assert(is_ascii_chars(ident@));
        assert forall|j: int| 0 <= j < full.len() implies full[j] < 128 by {
            assert(full[j] == ident@[j] as u8);
        }
    }
    let mut out: Vec<u8> = Vec::new();
    let mut start: bool = true;
    let mut i: usize = 0;
    proof {
        assert(full.skip(0) =~= full);
        assert(camel_bytes(full, true) =~= out@ + camel_bytes(full, true));
    }
    while i < bytes.len()
        invariant
            i <= full.len(),
            bytes@ == full,
            full == encode_utf8(ident@),
            forall|j: int| 0 <= j < full.len() ==> full[j] < 128,
            forall|j: int| 0 <= j < out@.len() ==> out@[j] < 128,
            camel_bytes(full, true) == out@ + camel_bytes(full.skip(i as int), start),
        decreases full.len() - i,
    {
        let c = bytes[i];
        let ghost pre = out@;
        proof {
            assert(full.skip(i as int)[0] == full[i as int]);
            assert(full.skip(i as int).skip(1) =~= full.skip(i + 1));
        }
        if c == 95 {
            start = true;
        } else if start {
            let up = if 97 <= c && c <= 122 {
                c - 32
            } else {
                c
            };
            out.push(up);
            start = false;
            proof {
                assert(pre + (seq![upper_byte(c)] + camel_bytes(full.skip(i + 1), false)) =~= out@
                    + camel_bytes(full.skip(i + 1), false));
            }
        } else {
            let low = if 65 <= c && c <= 90 {
                c + 32
            } else {
                c
            };
            out.push(low);
            proof {
                assert(pre + (seq![lower_byte(c)] + camel_bytes(full.skip(i + 1), false)) =~= out@
                    + camel_bytes(full.skip(i + 1), false));
            }
        }
        i = i + 1;
    }
    proof {
        assert(full.skip(full.len() as int) =~= Seq::<u8>::empty());
        assert(camel_bytes(full, true) =~= out@);
        // an all-ASCII byte sequence is valid UTF-8
        assert(out@.subrange(0, 0) =~= Seq::<u8>::empty());
        assert(partial_valid_utf8(out@, 0));
        assert forall|j: int| 0 <= 0 <= j < out@.len() <= out@.len() implies #[trigger]
        is_leading_byte_width_1(out@[j]) by {
            assert(out@[j] < 128);
        }
        partial_valid_utf8_extend_ascii_block(out@, 0, out@.len() as int);
        assert(out@.subrange(0, out@.len() as int) =~= out@);
        assert(valid_utf8(out@));
    }
    match string_from_utf8(out) {
        Some(s) => s,
        None => {
            proof {
                assert(false);
            }
            String::new()
        },
    }
}

} // verus!
