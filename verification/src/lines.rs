//! Transaction-marker filtering for upgrade file contents.
//!
//! An upgrade file's text is split into lines on `'\n'`, with a trailing
//! newline producing no final empty line. Lines that begin with `BEGIN;`
//! or `COMMIT;` are dropped; every kept line is written back followed by
//! a newline. This keeps an upgrade's own transaction markers out of the
//! enclosing transaction of the assembled script.

use vstd::prelude::*;

verus! {

/// The lines of `s` up to each `'\n'` terminator, with `cur` the partial
/// line read so far. A trailing partial line is kept; a trailing
/// terminator adds no empty line.
pub open spec fn split_rest(s: Seq<char>, cur: Seq<char>) -> Seq<Seq<char>>
    decreases s.len(),
{
    if s.len() == 0 {
        if cur.len() == 0 {
            Seq::empty()
        } else {
            seq![cur]
        }
    } else if s[0] == '\n' {
        seq![cur] + split_rest(s.drop_first(), Seq::empty())
    } else {
        split_rest(s.drop_first(), cur.push(s[0]))
    }
}

/// The lines of `s`, split on `'\n'` terminators.
pub open spec fn spec_lines(s: Seq<char>) -> Seq<Seq<char>> {
    split_rest(s, Seq::empty())
}

/// Whether a line begins with `BEGIN;`.
pub open spec fn is_begin_line(line: Seq<char>) -> bool {
    &&& line.len() >= 6
    &&& line[0] == 'B'
    &&& line[1] == 'E'
    &&& line[2] == 'G'
    &&& line[3] == 'I'
    &&& line[4] == 'N'
    &&& line[5] == ';'
}

/// Whether a line begins with `COMMIT;`.
pub open spec fn is_commit_line(line: Seq<char>) -> bool {
    &&& line.len() >= 7
    &&& line[0] == 'C'
    &&& line[1] == 'O'
    &&& line[2] == 'M'
    &&& line[3] == 'M'
    &&& line[4] == 'I'
    &&& line[5] == 'T'
    &&& line[6] == ';'
}

/// Whether a line is dropped by upgrade-mode copying.
pub open spec fn is_marker_line(line: Seq<char>) -> bool {
    is_begin_line(line) || is_commit_line(line)
}

/// The kept lines of `lines`, each followed by a newline, concatenated.
pub open spec fn cat_kept_lines(lines: Seq<Seq<char>>) -> Seq<char>
    decreases lines.len(),
{
    if lines.len() == 0 {
        Seq::empty()
    } else if is_marker_line(lines[0]) {
        cat_kept_lines(lines.drop_first())
    } else {
        lines[0].push('\n') + cat_kept_lines(lines.drop_first())
    }
}

/// The text of an upgrade file as it appears inside the assembled
/// script: its lines minus transaction markers, each newline-terminated.
pub open spec fn spec_filtered(s: Seq<char>) -> Seq<char> {
    cat_kept_lines(spec_lines(s))
}

/// Relies on `String::push` of std: appends the given character to the
/// end of the string.
#[verifier::external_body]
fn push_char(s: &mut String, c: char)
    ensures
        final(s)@ == old(s)@.push(c),
{
    s.push(c);
}

/// The lines of `content`, split on `'\n'` terminators.
pub fn split_lines(content: &str) -> (r: Vec<String>)
    ensures
        r.deep_view() == spec_lines(content@),
{
    let n = content.unicode_len();
    let mut out: Vec<String> = Vec::new();
    let mut cur = String::new();
    let mut i: usize = 0;
    proof {
        assert(content@.skip(0) =~= content@);
        assert(out.deep_view() =~= Seq::<Seq<char>>::empty());
        assert(out.deep_view() + split_rest(content@, cur@) =~= split_rest(content@, cur@));
    }
    while i < n
        invariant
            n == content@.len(),
            i <= n,
            spec_lines(content@) == out.deep_view() + split_rest(
                content@.skip(i as int),
                cur@,
            ),
        decreases n - i,
    {
        let ghost rest = content@.skip(i as int);
        let c = content.get_char(i);
        proof {
            assert(rest[0] == c);
            assert(rest.drop_first() =~= content@.skip(i + 1));
        }
        if c == '\n' {
            let ghost prev = out.deep_view();
            let ghost line = cur@;
            out.push(cur);
            cur = String::new();
            proof {
                assert(out.deep_view() =~= prev + seq![line]);
                assert(out.deep_view() + split_rest(content@.skip(i + 1), cur@) =~= prev + (
                seq![line] + split_rest(content@.skip(i + 1), Seq::empty())));
            }
        } else {
            push_char(&mut cur, c);
        }
        i += 1;
    }
    proof {
        assert(content@.skip(n as int) =~= Seq::<char>::empty());
        if cur@.len() == 0 {
            assert(out.deep_view() + split_rest(Seq::empty(), cur@) =~= out.deep_view());
        }
    }
    if !cur.as_str().is_empty() {
        let ghost prev = out.deep_view();
        out.push(cur);
        proof {
            assert(out.deep_view() =~= prev + seq![cur@]);
        }
    }
    out
}

/// Whether `line` begins with `BEGIN;` or `COMMIT;`.
fn is_marker(line: &String) -> (r: bool)
    ensures
        r == is_marker_line(line@),
{
    let s = line.as_str();
    let n = s.unicode_len();
    if n >= 6 && s.get_char(0) == 'B' && s.get_char(1) == 'E' && s.get_char(2) == 'G'
        && s.get_char(3) == 'I' && s.get_char(4) == 'N' && s.get_char(5) == ';' {
        return true;
    }
    if n >= 7 && s.get_char(0) == 'C' && s.get_char(1) == 'O' && s.get_char(2) == 'M'
        && s.get_char(3) == 'M' && s.get_char(4) == 'I' && s.get_char(5) == 'T'
        && s.get_char(6) == ';' {
        return true;
    }
    false
}

/// The upgrade-mode copy of `content`: every line that does not begin
/// with `BEGIN;` or `COMMIT;`, each followed by a newline.
pub fn filter_upgrade_lines(content: &str) -> (r: String)
    ensures
        r@ == spec_filtered(content@),
{
    let lines = split_lines(content);
    let ghost all = lines.deep_view();
    let mut out = String::new();
    let mut i: usize = 0;
    proof {
        assert(all.skip(0) =~= all);
        assert(out@ + cat_kept_lines(all) =~= cat_kept_lines(all));
    }
    while i < lines.len()
        invariant
            all == lines.deep_view(),
            i <= lines.len(),
            cat_kept_lines(all) == out@ + cat_kept_lines(all.skip(i as int)),
        decreases lines.len() - i,
    {
        let ghost rest = all.skip(i as int);
        proof {
            assert(rest[0] == all[i as int]);
            assert(rest.drop_first() =~= all.skip(i + 1));
        }
        if !is_marker(&lines[i]) {
            out.append(lines[i].as_str());
            out.append("\n");
            proof {
                reveal_strlit("\n");
                assert("\n"@ =~= seq!['\n']);
                assert(all[i as int].push('\n') =~= all[i as int] + "\n"@);
            }
        }
        i += 1;
    }
    proof {
        assert(all.skip(lines.len() as int) =~= Seq::<Seq<char>>::empty());
    }
    out
}

} // verus!
