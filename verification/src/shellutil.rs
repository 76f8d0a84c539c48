//! Text helpers for the boot console shell.
//!
//! Pure functions the interactive shell uses to parse a command line
//! and to render file permission bits; the shell's own input and
//! output stay with its host program.

use vstd::prelude::*;

verus! {

/// Whether `b` is an ASCII whitespace byte the shell separates
/// tokens on: space, tab, line feed or carriage return.
pub open spec fn is_ws(b: u8) -> bool {
    b == 0x20 || b == 0x09 || b == 0x0a || b == 0x0d
}

/// `s` without its leading whitespace.
pub open spec fn trim_start(s: Seq<u8>) -> Seq<u8>
    decreases s.len(),
{
    if s.len() == 0 {
        s
    } else if is_ws(s[0]) {
        trim_start(s.skip(1))
    } else {
        s
    }
}

/// `s` without its trailing whitespace.
pub open spec fn trim_end(s: Seq<u8>) -> Seq<u8>
    decreases s.len(),
{
    if s.len() == 0 {
        s
    } else if is_ws(s.last()) {
        trim_end(s.drop_last())
    } else {
        s
    }
}

/// `s` without leading and trailing whitespace.
pub open spec fn trim(s: Seq<u8>) -> Seq<u8> {
    trim_end(trim_start(s))
}

/// Length of the leading run of non-whitespace bytes.
pub open spec fn token_len(s: Seq<u8>) -> int
    decreases s.len(),
{
    if s.len() == 0 || is_ws(s[0]) {
        0int
    } else {
        1 + token_len(s.skip(1))
    }
}

/// The first whitespace-separated token of `s`: what stands before
/// the first whitespace of the trimmed line.
pub open spec fn first_token(s: Seq<u8>) -> Seq<u8> {
    trim(s).take(token_len(trim(s)))
}

/// What stands after the first token of `s`, itself trimmed.
pub open spec fn rest_after_token(s: Seq<u8>) -> Seq<u8> {
    trim(trim(s).skip(token_len(trim(s))))
}

/// Whether `b` is a token separator.
fn ws(b: u8) -> (r: bool)
    ensures
        r == is_ws(b),
{
    b == 0x20 || b == 0x09 || b == 0x0a || b == 0x0d
}

/// Splits a command line in two: its first whitespace-separated token
/// and the trimmed remainder — `cat a.txt b.txt` becomes `cat` and
/// `a.txt b.txt`, a blank line becomes two empty parts.
pub fn split_whitespace(s: &[u8]) -> (r: (Vec<u8>, Vec<u8>))
    ensures
        r.0@ == first_token(s@),
        r.1@ == rest_after_token(s@),
{
    let n = s.len();
    proof {
        assert(s@.skip(0) =~= s@);
    }
    // Leading whitespace.
    let mut a: usize = 0;
    while a < n && ws(s[a])
        invariant
            0 <= a <= n,
            n == s@.len(),
            trim_start(s@) == trim_start(s@.skip(a as int)),
        decreases n - a,
    {
        proof {
            assert(s@.skip(a as int)[0] == s@[a as int]);
            assert(s@.skip(a as int).skip(1) =~= s@.skip(a as int + 1));
        }
        a = a + 1;
    }
    proof {
        assert(trim_start(s@) == s@.skip(a as int));
    }
    // Trailing whitespace.
    let mut b: usize = n;
    while b > a && ws(s[b - 1])
        invariant
            a <= b <= n,
            n == s@.len(),
            trim_start(s@) == s@.skip(a as int),
            trim_end(s@.skip(a as int)) == trim_end(s@.subrange(a as int, b as int)),
        decreases b,
    {
        proof {
            let t = s@.subrange(a as int, b as int);
            assert(t.last() == s@[b as int - 1]);
            assert(t.drop_last() =~= s@.subrange(a as int, b as int - 1));
        }
        b = b - 1;
    }
    proof {
        assert(s@.skip(a as int) =~= s@.subrange(a as int, n as int));
        if b > a {
            assert(!is_ws(s@.subrange(a as int, b as int).last()));
        }
        assert(trim(s@) == s@.subrange(a as int, b as int));
    }
    proof {
        let t = s@.subrange(a as int, b as int);
        assert(t.skip(0) =~= t);
    }
    // First whitespace inside the trimmed line.
    let mut i: usize = a;
    while i < b && !ws(s[i])
        invariant
            a <= i <= b <= n,
            n == s@.len(),
            trim(s@) == s@.subrange(a as int, b as int),
            token_len(s@.subrange(a as int, b as int)) == (i - a) + token_len(
                s@.subrange(a as int, b as int).skip(i - a),
            ),
        decreases b - i,
    {
        proof {
            let t = s@.subrange(a as int, b as int);
            assert(t.skip(i - a)[0] == s@[i as int]);
            assert(t.skip(i - a).skip(1) =~= t.skip(i - a + 1));
        }
        i = i + 1;
    }
    proof {
        let t = s@.subrange(a as int, b as int);
        if i < b {
            assert(t.skip(i - a)[0] == s@[i as int]);
        }
        assert(token_len(t.skip(i - a)) == 0);
        assert(token_len(t) == i - a);
    }
    // The token itself.
    let mut head: Vec<u8> = Vec::new();
    let mut j: usize = a;
    while j < i
        invariant
            a <= j <= i <= n,
            n == s@.len(),
            head@ == s@.subrange(a as int, j as int),
        decreases i - j,
    {
        let c = s[j];
        head.push(c);
        proof {
            assert(head@ =~= s@.subrange(a as int, j as int + 1));
        }
        j = j + 1;
    }
    // Leading whitespace of the remainder.
    let mut a2: usize = i;
    while a2 < b && ws(s[a2])
        invariant
            i <= a2 <= b <= n,
            n == s@.len(),
            trim(s@) == s@.subrange(a as int, b as int),
            a <= i,
            trim_start(s@.subrange(i as int, b as int)) == trim_start(
                s@.subrange(a2 as int, b as int),
            ),
        decreases b - a2,
    {
        proof {
            let u = s@.subrange(a2 as int, b as int);
            assert(u[0] == s@[a2 as int]);
            assert(u.skip(1) =~= s@.subrange(a2 as int + 1, b as int));
        }
        a2 = a2 + 1;
    }
    // The remainder.
    let mut rest: Vec<u8> = Vec::new();
    let mut j2: usize = a2;
    while j2 < b
        invariant
            a2 <= j2 <= b <= n,
            n == s@.len(),
            rest@ == s@.subrange(a2 as int, j2 as int),
        decreases b - j2,
    {
        let c = s[j2];
        rest.push(c);
        proof {
            assert(rest@ =~= s@.subrange(a2 as int, j2 as int + 1));
        }
        j2 = j2 + 1;
    }
    proof {
        let t = s@.subrange(a as int, b as int);
        // The token is the leading non-whitespace run of the trimmed line.
        assert(head@ =~= t.take(i - a));
        // The remainder is the trimmed tail of the trimmed line.
        assert(t.skip(i - a) =~= s@.subrange(i as int, b as int));
        assert(trim_start(s@.subrange(i as int, b as int)) == s@.subrange(
            a2 as int,
            b as int,
        ));
        let u = s@.subrange(a2 as int, b as int);
        if a2 < b {
            assert(u.last() == s@[b as int - 1]);
            assert(!is_ws(u.last()));
        }
        assert(trim_end(u) == u);
        assert(rest@ =~= u);
    }
    (head, rest)
}

/// Renders the nine permission bits of a file mode as the shell's
/// `rwxrwxrwx` column: owner, group and other triples from the top
/// bits down, a dash for each cleared bit.
pub fn file_perm_to_rwx(mode: u32) -> (r: [u8; 9])
    ensures
        r@[0] == (if mode & 0x100 != 0 {
            0x72u8
        } else {
            0x2du8
        }),
        r@[1] == (if mode & 0x80 != 0 {
            0x77u8
        } else {
            0x2du8
        }),
        r@[2] == (if mode & 0x40 != 0 {
            0x78u8
        } else {
            0x2du8
        }),
        r@[3] == (if mode & 0x20 != 0 {
            0x72u8
        } else {
            0x2du8
        }),
        r@[4] == (if mode & 0x10 != 0 {
            0x77u8
        } else {
            0x2du8
        }),
        r@[5] == (if mode & 0x8 != 0 {
            0x78u8
        } else {
            0x2du8
        }),
        r@[6] == (if mode & 0x4 != 0 {
            0x72u8
        } else {
            0x2du8
        }),
        r@[7] == (if mode & 0x2 != 0 {
            0x77u8
        } else {
            0x2du8
        }),
        r@[8] == (if mode & 0x1 != 0 {
            0x78u8
        } else {
            0x2du8
        }),
{
    let ur: u8 = if mode & 0x100 != 0 {
        0x72
    } else {
        0x2d
    };
    let uw: u8 = if mode & 0x80 != 0 {
        0x77
    } else {
        0x2d
    };
    let ux: u8 = if mode & 0x40 != 0 {
        0x78
    } else {
        0x2d
    };
    let gr: u8 = if mode & 0x20 != 0 {
        0x72
    } else {
        0x2d
    };
    let gw: u8 = if mode & 0x10 != 0 {
        0x77
    } else {
        0x2d
    };
    let gx: u8 = if mode & 0x8 != 0 {
        0x78
    } else {
        0x2d
    };
    let or: u8 = if mode & 0x4 != 0 {
        0x72
    } else {
        0x2d
    };
    let ow: u8 = if mode & 0x2 != 0 {
        0x77
    } else {
        0x2d
    };
    let ox: u8 = if mode & 0x1 != 0 {
        0x78
    } else {
        0x2d
    };
    [ur, uw, ux, gr, gw, gx, or, ow, ox]
}

} // verus!
