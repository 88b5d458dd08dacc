//! Split a captured byte stream into lines.
//!
//! The evaluator's standard output and standard error are captured as raw
//! bytes, so that no non-UTF8 byte sequence is ever lost.  A line is a
//! segment between newline bytes, the newline itself dropped; a trailing
//! segment after the last newline is kept only when it is non-empty, so a
//! stream that ends in a newline does not produce a spurious empty line.

use vstd::prelude::*;

verus! {

/// The sequence of views of a vector of byte lines.
pub open spec fn line_views(v: Seq<Vec<u8>>) -> Seq<Seq<u8>> {
    v.map_values(|l: Vec<u8>| l@)
}

/// The lines of `s` when `cur` holds the bytes of the current,
/// still unterminated line.
pub open spec fn lines_from(s: Seq<u8>, cur: Seq<u8>) -> Seq<Seq<u8>>
    decreases s.len(),
{
    if s.len() == 0 {
        if cur.len() == 0 {
            Seq::empty()
        } else {
            seq![cur]
        }
    } else if s[0] == 10u8 {
        seq![cur] + lines_from(s.drop_first(), Seq::empty())
    } else {
        lines_from(s.drop_first(), cur.push(s[0]))
    }
}

/// The lines of a byte stream: segments split on the newline byte, a
/// final unterminated segment kept only when non-empty.
pub open spec fn spec_lines(s: Seq<u8>) -> Seq<Seq<u8>> {
    lines_from(s, Seq::empty())
}

/// Split a captured byte stream into its lines.
pub fn split_lines(bytes: &[u8]) -> (r: Vec<Vec<u8>>)
    ensures
        line_views(r@) == spec_lines(bytes@),
{
    let mut out: Vec<Vec<u8>> = Vec::new();
    let mut cur: Vec<u8> = Vec::new();
    let mut i: usize = 0;
    proof {
        assert(bytes@.skip(0) =~= bytes@);
        assert(line_views(out@) + lines_from(bytes@, cur@) =~= lines_from(bytes@, cur@));
    }
    while i < bytes.len()
        invariant
            i <= bytes@.len(),
            spec_lines(bytes@) == line_views(out@) + lines_from(bytes@.skip(i as int), cur@),
        decreases bytes@.len() - i,
    {
        proof {
            assert(bytes@.skip(i as int).drop_first() =~= bytes@.skip(i as int + 1));
            assert(bytes@.skip(i as int)[0] == bytes@[i as int]);
        }
        let b = bytes[i];
        if b == 10u8 {
            let ghost old_out = out@;
            let ghost finished = cur@;
            out.push(cur);
            cur = Vec::new();
            proof {
                assert(line_views(out@) =~= line_views(old_out).push(finished));
                assert(line_views(old_out) + (seq![finished] + lines_from(
                    bytes@.skip(i as int + 1),
                    Seq::empty(),
                )) =~= line_views(out@) + lines_from(bytes@.skip(i as int + 1), cur@));
            }
        } else {
            proof {
                assert(cur@.push(b) == cur@.push(bytes@.skip(i as int)[0]));
            }
            cur.push(b);
        }
        i = i + 1;
    }
    proof {
        assert(bytes@.skip(i as int) =~= Seq::<u8>::empty());
    }
    if cur.len() > 0 {
        let ghost old_out = out@;
        let ghost finished = cur@;
        out.push(cur);
        proof {
            assert(line_views(out@) =~= line_views(old_out).push(finished));
            assert(line_views(old_out) + seq![finished] =~= line_views(out@));
        }
        out
    } else {
        proof {
            assert(line_views(out@) + Seq::<Seq<u8>>::empty() =~= line_views(out@));
        }
        out
    }
}

} // verus!
