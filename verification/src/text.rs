//! Small verified text-building primitives shared by the code emitter:
//! repeated spaces, decimal rendering of integers, and the line-indentation
//! helpers used on multi-line blocks.
use vstd::prelude::*;
use vstd::string::StringExecFns;
use vstd::string::StrSliceExecFns;

verus! {

/// `n` space characters.
pub open spec fn spaces(n: nat) -> Seq<char>
    decreases n,
{
    if n == 0 {
        Seq::empty()
    } else {
        spaces((n - 1) as nat) + seq![' ']
    }
}

/// The character for one decimal digit.
pub open spec fn digit_char(d: nat) -> char {
    if d == 0 {
        '0'
    } else if d == 1 {
        '1'
    } else if d == 2 {
        '2'
    } else if d == 3 {
        '3'
    } else if d == 4 {
        '4'
    } else if d == 5 {
        '5'
    } else if d == 6 {
        '6'
    } else if d == 7 {
        '7'
    } else if d == 8 {
        '8'
    } else {
        '9'
    }
}

/// The usual decimal rendering of `n`, without sign or leading zeros.
pub open spec fn dec_str(n: nat) -> Seq<char>
    decreases n,
{
    if n < 10 {
        seq![digit_char(n)]
    } else {
        dec_str(n / 10) + seq![digit_char(n % 10)]
    }
}

/// Relies on `String::push`: appends exactly the given character.
#[verifier::external_body]
pub(crate) fn push_char(f: &mut String, c: char)
    ensures
        final(f)@ == old(f)@ + seq![c],
{
    f.push(c);
}

/// Append `n` spaces to `f`.
pub(crate) fn push_spaces(f: &mut String, n: usize)
    ensures
        final(f)@ == old(f)@ + spaces(n as nat),
{
    let mut i: usize = 0;
    while i < n
        invariant
            i <= n,
            f@ == old(f)@ + spaces(i as nat),
        decreases n - i,
    {
        push_char(f, ' ');
        i = i + 1;
        proof {
            assert(old(f)@ + spaces((i - 1) as nat) + seq![' '] =~= old(f)@ + spaces(i as nat));
        }
    }
    proof {
        if n == 0 {
            assert(old(f)@ + spaces(0) =~= old(f)@);
        }
    }
}

/// Append the decimal rendering of `n` to `f`.
pub(crate) fn push_dec(f: &mut String, n: u64)
    ensures
        final(f)@ == old(f)@ + dec_str(n as nat),
    decreases n,
{
    if n >= 10 {
        proof {
            assert(n / 10 < n) by (nonlinear_arith)
                requires
                    n >= 10,
            ;
        }
        push_dec(f, n / 10);
    }
    let d: u64 = n % 10;
    let ds: &str = if d == 0 {
        "0"
    } else if d == 1 {
        "1"
    } else if d == 2 {
        "2"
    } else if d == 3 {
        "3"
    } else if d == 4 {
        "4"
    } else if d == 5 {
        "5"
    } else if d == 6 {
        "6"
    } else if d == 7 {
        "7"
    } else if d == 8 {
        "8"
    } else {
        "9"
    };
    proof {
        reveal_strlit("0");
        reveal_strlit("1");
        reveal_strlit("2");
        reveal_strlit("3");
        reveal_strlit("4");
        reveal_strlit("5");
        reveal_strlit("6");
        reveal_strlit("7");
        reveal_strlit("8");
        reveal_strlit("9");
        assert(ds@ =~= seq![digit_char((n % 10) as nat)]);
    }
    f.append(ds);
    proof {
        if n < 10 {
            assert(n % 10 == n);
        } else {
            assert(old(f)@ + dec_str((n / 10) as nat) + seq![digit_char((n % 10) as nat)] =~= old(
                f,
            )@ + dec_str(n as nat));
        }
    }
}

/// The text `s` with every line of it prefixed by `lvl` spaces and the line
/// separators kept, except that one trailing line break is dropped, as
/// `str::lines` drops it.  Empty input stays empty.
pub open spec fn indent_text(s: Seq<char>, lvl: nat) -> Seq<char> {
    if s.len() == 0 {
        Seq::empty()
    } else {
        let body = if s.last() == '\n' {
            s.drop_last()
        } else {
            s
        };
        spaces(lvl) + reindented(body, lvl)
    }
}

/// `s` with `lvl` spaces inserted after every line break.
pub open spec fn reindented(s: Seq<char>, lvl: nat) -> Seq<char>
    decreases s.len(),
{
    if s.len() == 0 {
        Seq::empty()
    } else {
        reindented(s.drop_last(), lvl) + (if s.last() == '\n' {
            seq!['\n'] + spaces(lvl)
        } else {
            seq![s.last()]
        })
    }
}

/// Apply indentation to each level.
pub fn indent(s: &str, level: usize) -> (r: String)
    ensures
        r@ == indent_text(s@, level as nat),
{
    let len: usize = s.unicode_len();
    let mut out = String::new();
    if len == 0 {
        return out;
    }
    let body_len: usize = if s.get_char(len - 1) == '\n' {
        len - 1
    } else {
        len
    };
    push_spaces(&mut out, level);
    let ghost body: Seq<char> = if s@.last() == '\n' {
        s@.drop_last()
    } else {
        s@
    };
    proof {
        assert(body =~= s@.take(body_len as int));
    }
    let mut i: usize = 0;
    while i < body_len
        invariant
            i <= body_len,
            body_len <= len,
            len == s@.len(),
            out@ == spaces(level as nat) + reindented(s@.take(i as int), level as nat),
        decreases body_len - i,
    {
        let c = s.get_char(i);
        if c == '\n' {
            push_char(&mut out, '\n');
            push_spaces(&mut out, level);
        } else {
            push_char(&mut out, c);
        }
        proof {
            assert(s@.take((i + 1) as int).drop_last() =~= s@.take(i as int));
            assert(s@.take((i + 1) as int).last() == c);
            if c == '\n' {
                assert(out@ =~= spaces(level as nat) + reindented(
                    s@.take((i + 1) as int),
                    level as nat,
                ));
            } else {
                assert(out@ =~= spaces(level as nat) + reindented(
                    s@.take((i + 1) as int),
                    level as nat,
                ));
            }
        }
        i = i + 1;
    }
    proof {
        assert(s@.take(body_len as int) =~= body);
    }
    out
}

/// Assume the input is already unindented.
pub fn write_indented(w: &mut String, level: usize, s: &str)
    ensures
        final(w)@ == old(w)@ + indent_text(s@, level as nat) + seq!['\n'],
{
    let t = indent(s, level);
    w.append(t.as_str());
    push_char(w, '\n');
}

} // verus!
