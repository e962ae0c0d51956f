//! Slash-separated path names, as far as the engine reads them: the final
//! component of a path, and whether a name carries the listing file
//! extension that recursive mode sweeps for.

use vstd::prelude::*;
use vstd::string::StrSliceExecFns;

use crate::textfmt::lemma_rfind_range;
use crate::textfmt::spec_rfind;

verus! {

/// The index of the last `'/'` of `s`, or `-1` if `s` has none.
pub open spec fn spec_last_slash(s: Seq<char>) -> int {
    spec_rfind(s, '/')
}

/// The final path component of `s`: everything after the last `'/'`, or
/// all of `s` when it has none.
pub open spec fn spec_basename(s: Seq<char>) -> Seq<char> {
    s.skip(spec_last_slash(s) + 1)
}

/// The final path component of `name`.
pub fn basename(name: &str) -> (r: &str)
    ensures
        r@ == spec_basename(name@),
{
    let len = name.unicode_len();
    let mut j: usize = len;
    proof {
        assert(name@.take(len as int) =~= name@);
    }
    while j > 0
        invariant
            j <= len,
            len == name@.len(),
            spec_last_slash(name@) == spec_last_slash(name@.take(j as int)),
        decreases j,
    {
        proof {
            assert(name@.take(j as int).last() == name@[j - 1]);
            assert(name@.take(j as int).drop_last() =~= name@.take(j - 1));
        }
        if name.get_char(j - 1) == '/' {
            let r = name.substring_char(j, len);
            proof {
                assert(r@ =~= spec_basename(name@));
            }
            return r;
        }
        j = j - 1;
    }
    proof {
        assert(name@.skip(0) =~= name@);
    }
    name
}

/// Whether the name of a file carries the listing extension: its final
/// component ends in `.sfv`, with the dot not the component's first
/// character (a name that is nothing but `.sfv` is a hidden file, not a
/// listing).
pub open spec fn spec_is_sfv_name(name: Seq<char>) -> bool {
    let base = spec_basename(name);
    let d = spec_rfind(base, '.');
    d > 0 && base.skip(d + 1) == "sfv"@
}

/// Whether `name` names a listing file.
pub fn is_sfv_name(name: &str) -> (b: bool)
    ensures
        b == spec_is_sfv_name(name@),
{
    let base = basename(name);
    let len = base.unicode_len();
    let ghost bs = base@;
    let mut j: usize = len;
    proof {
        assert(bs.take(len as int) =~= bs);
    }
    while j > 0
        invariant
            j <= len,
            len == bs.len(),
            bs == base@,
            bs == spec_basename(name@),
            spec_rfind(bs, '.') == spec_rfind(bs.take(j as int), '.'),
        decreases j,
    {
        proof {
            assert(bs.take(j as int).last() == bs[j - 1]);
            assert(bs.take(j as int).drop_last() =~= bs.take(j - 1));
        }
        if base.get_char(j - 1) == '.' {
            proof {
                assert(spec_rfind(bs, '.') == j - 1);
            }
            if j - 1 == 0 {
                return false;
            }
            if len - j != 3 {
                proof {
                    reveal_strlit("sfv");
                    assert(bs.skip(j as int).len() != "sfv"@.len());
                }
                return false;
            }
            let hit = base.get_char(j) == 's' && base.get_char(j + 1) == 'f' && base.get_char(
                j + 2,
            ) == 'v';
            proof {
                reveal_strlit("sfv");
                assert(bs.skip(j as int)[0] == bs[j as int]);
                assert(bs.skip(j as int)[1] == bs[j + 1]);
                assert(bs.skip(j as int)[2] == bs[j + 2]);
                assert("sfv"@[0] == 's' && "sfv"@[1] == 'f' && "sfv"@[2] == 'v');
                if hit {
                    assert(bs.skip(j as int) =~= "sfv"@);
                } else {
                    assert(bs.skip(j as int) != "sfv"@);
                }
            }
            return hit;
        }
        j = j - 1;
    }
    proof {
        assert(bs.take(0) =~= Seq::<char>::empty());
        assert(spec_rfind(bs, '.') == -1);
    }
    false
}

} // verus!
