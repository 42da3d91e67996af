//! Splitting and joining text on a separator character, as `str::split` and
//! `join` do: the protocol separates fields with `|`, `;`, `,` and `+`.
use vstd::prelude::*;

verus! {

/// The pieces that `str::split(sep)` yields for `s`: always at least one piece
/// (the empty text yields one empty piece), and one more for each `sep`.
pub open spec fn split_on(s: Seq<char>, sep: char) -> Seq<Seq<char>>
    decreases s.len(),
{
    if s.len() == 0 {
        seq![Seq::<char>::empty()]
    } else {
        let parts = split_on(s.drop_last(), sep);
        if s.last() == sep {
            parts.push(Seq::<char>::empty())
        } else {
            parts.update(parts.len() - 1, parts.last().push(s.last()))
        }
    }
}

/// The pieces put together with `sep` between each two, as `join` does.
pub open spec fn join_with(parts: Seq<Seq<char>>, sep: char) -> Seq<char>
    decreases parts.len(),
{
    if parts.len() == 0 {
        Seq::<char>::empty()
    } else if parts.len() == 1 {
        parts[0]
    } else {
        join_with(parts.drop_last(), sep).push(sep) + parts.last()
    }
}

/// The texts held by a vector of character vectors.
pub open spec fn pieces_view(v: Seq<Vec<char>>) -> Seq<Seq<char>> {
    v.map_values(|p: Vec<char>| p@)
}

/// The texts held by a vector of strings.
pub open spec fn strings_view(v: Seq<String>) -> Seq<Seq<char>> {
    v.map_values(|p: String| p@)
}

/// No piece holds the separator.
pub open spec fn no_piece_holds(parts: Seq<Seq<char>>, sep: char) -> bool {
    forall|i: int| 0 <= i < parts.len() ==> !(#[trigger] parts[i]).contains(sep)
}

/// Splitting always yields at least one piece, and no piece holds the separator.
pub proof fn lemma_split_shape(s: Seq<char>, sep: char)
    ensures
        split_on(s, sep).len() >= 1,
        no_piece_holds(split_on(s, sep), sep),
        split_on(s, sep).len() == 1 ==> !s.contains(sep),
    decreases s.len(),
{
    if s.len() > 0 {
        let pre = split_on(s.drop_last(), sep);
        lemma_split_shape(s.drop_last(), sep);
        let parts = split_on(s, sep);
        if s.last() != sep {
            assert forall|i: int| 0 <= i < parts.len() implies !(#[trigger] parts[i]).contains(
                sep,
            ) by {
                if i == parts.len() - 1 {
                    let p = pre.last().push(s.last());
                    if p.contains(sep) {
                        let k = choose|k: int| 0 <= k < p.len() && p[k] == sep;
                        if k < p.len() - 1 {
                            assert(pre.last()[k] == sep);
                            assert(pre[pre.len() - 1].contains(sep));
                        }
                    }
                } else {
                    assert(parts[i] == pre[i]);
                }
            }
            if parts.len() == 1 && s.contains(sep) {
                let k = choose|k: int| 0 <= k < s.len() && s[k] == sep;
                assert(k < s.len() - 1);
                assert(s.drop_last()[k] == sep);
                assert(s.drop_last().contains(sep));
            }
        } else {
            assert forall|i: int| 0 <= i < parts.len() implies !(#[trigger] parts[i]).contains(
                sep,
            ) by {
                if i < parts.len() - 1 {
                    assert(parts[i] == pre[i]);
                }
            }
        }
    }
}

/// Text without the separator is a single piece.
pub proof fn lemma_split_single(s: Seq<char>, sep: char)
    requires
        !s.contains(sep),
    ensures
        split_on(s, sep) == seq![s],
    decreases s.len(),
{
    if s.len() > 0 {
        assert(!s.drop_last().contains(sep)) by {
            if s.drop_last().contains(sep) {
                let k = choose|k: int| 0 <= k < s.drop_last().len() && s.drop_last()[k] == sep;
                assert(s[k] == sep);
            }
        }
        lemma_split_single(s.drop_last(), sep);
        assert(s.last() != sep) by {
            assert(s[s.len() - 1] == s.last());
        }
        assert(s.drop_last().push(s.last()) =~= s);
        let pre = split_on(s.drop_last(), sep);
        assert(pre == seq![s.drop_last()]);
        assert(split_on(s, sep) == pre.update(0, pre[0].push(s.last())));
        assert(split_on(s, sep) =~= seq![s]);
    } else {
        assert(s =~= Seq::<char>::empty());
    }
}

/// Joining after appending a character to the last piece appends the character.
proof fn lemma_join_extend_last(parts: Seq<Seq<char>>, sep: char, x: char)
    requires
        parts.len() >= 1,
    ensures
        join_with(parts.update(parts.len() - 1, parts.last().push(x)), sep) == join_with(
            parts,
            sep,
        ).push(x),
{
    let q = parts.update(parts.len() - 1, parts.last().push(x));
    if parts.len() == 1 {
        assert(q =~= seq![parts[0].push(x)]);
    } else {
        assert(q.drop_last() =~= parts.drop_last());
        assert(join_with(parts.drop_last(), sep).push(sep) + parts.last().push(x) =~= (
        join_with(parts.drop_last(), sep).push(sep) + parts.last()).push(x));
    }
}

/// Joining the pieces of a split gives back the text.
pub proof fn lemma_join_split(s: Seq<char>, sep: char)
    ensures
        join_with(split_on(s, sep), sep) == s,
    decreases s.len(),
{
    if s.len() > 0 {
        let pre = split_on(s.drop_last(), sep);
        lemma_join_split(s.drop_last(), sep);
        lemma_split_shape(s.drop_last(), sep);
        if s.last() == sep {
            let parts = pre.push(Seq::<char>::empty());
            assert(parts.drop_last() =~= pre);
            assert(join_with(pre, sep).push(sep) + Seq::<char>::empty() =~= s);
        } else {
            lemma_join_extend_last(pre, sep, s.last());
            assert(s.drop_last().push(s.last()) =~= s);
        }
    }
}

/// Splitting text that has a separator between `a` and `b` splits `a` and `b` apart.
pub proof fn lemma_split_append(a: Seq<char>, sep: char, b: Seq<char>)
    ensures
        split_on(a.push(sep) + b, sep) == split_on(a, sep) + split_on(b, sep),
    decreases b.len(),
{
    lemma_split_shape(a, sep);
    if b.len() == 0 {
        assert(a.push(sep) + b =~= a.push(sep));
        assert((a.push(sep)).drop_last() =~= a);
        assert(split_on(a, sep) + split_on(b, sep) =~= split_on(a, sep).push(
            Seq::<char>::empty(),
        ));
    } else {
        let s = a.push(sep) + b;
        lemma_split_append(a, sep, b.drop_last());
        lemma_split_shape(b.drop_last(), sep);
        assert(s.drop_last() =~= a.push(sep) + b.drop_last());
        assert(s.last() == b.last());
        let pa = split_on(a, sep);
        let pb = split_on(b.drop_last(), sep);
        if b.last() == sep {
            assert((pa + pb).push(Seq::<char>::empty()) =~= pa + pb.push(Seq::<char>::empty()));
        } else {
            let whole = pa + pb;
            assert(whole.update(whole.len() - 1, whole.last().push(b.last())) =~= pa + pb.update(
                pb.len() - 1,
                pb.last().push(b.last()),
            ));
        }
    }
}

/// Joining pieces that hold no separator and splitting again gives back the pieces.
pub proof fn lemma_split_join(parts: Seq<Seq<char>>, sep: char)
    requires
        parts.len() >= 1,
        no_piece_holds(parts, sep),
    ensures
        split_on(join_with(parts, sep), sep) == parts,
    decreases parts.len(),
{
    if parts.len() == 1 {
        assert(!parts[0].contains(sep));
        lemma_split_single(parts[0], sep);
        assert(parts =~= seq![parts[0]]);
    } else {
        let init = parts.drop_last();
        assert(no_piece_holds(init, sep)) by {
            assert forall|i: int| 0 <= i < init.len() implies !(#[trigger] init[i]).contains(
                sep,
            ) by {
                assert(init[i] == parts[i]);
            }
        }
        lemma_split_join(init, sep);
        assert(!parts[parts.len() - 1].contains(sep));
        lemma_split_single(parts.last(), sep);
        lemma_split_append(join_with(init, sep), sep, parts.last());
        assert(init + seq![parts.last()] =~= parts);
    }
}

/// Unicode `White_Space`, what `char::is_whitespace` tests.
pub open spec fn is_white_space(c: char) -> bool {
    ||| ('\u{9}' <= c && c <= '\u{d}')
    ||| c == ' '
    ||| c == '\u{85}'
    ||| c == '\u{a0}'
    ||| c == '\u{1680}'
    ||| ('\u{2000}' <= c && c <= '\u{200a}')
    ||| c == '\u{2028}'
    ||| c == '\u{2029}'
    ||| c == '\u{202f}'
    ||| c == '\u{205f}'
    ||| c == '\u{3000}'
}

/// The text without its leading white space.
pub open spec fn trim_start(s: Seq<char>) -> Seq<char>
    decreases s.len(),
{
    if s.len() > 0 && is_white_space(s[0]) {
        trim_start(s.drop_first())
    } else {
        s
    }
}

/// The text without its trailing white space.
pub open spec fn trim_end(s: Seq<char>) -> Seq<char>
    decreases s.len(),
{
    if s.len() > 0 && is_white_space(s.last()) {
        trim_end(s.drop_last())
    } else {
        s
    }
}

/// The text without leading and trailing white space, as `str::trim` gives it.
pub open spec fn trimmed(s: Seq<char>) -> Seq<char> {
    trim_end(trim_start(s))
}

/// Whether `c` is white space.
pub fn is_white_space_char(c: char) -> (r: bool)
    ensures
        r == is_white_space(c),
{
    ('\u{9}' <= c && c <= '\u{d}') || c == ' ' || c == '\u{85}' || c == '\u{a0}' || c == '\u{1680}'
        || ('\u{2000}' <= c && c <= '\u{200a}') || c == '\u{2028}' || c == '\u{2029}' || c
        == '\u{202f}' || c == '\u{205f}' || c == '\u{3000}'
}

/// The characters of `s` without leading and trailing white space.
pub fn trim_chars(s: &Vec<char>) -> (t: Vec<char>)
    ensures
        t@ == trimmed(s@),
{
    let mut start: usize = 0;
    assert(s@.subrange(0, s@.len() as int) =~= s@);
    while start < s.len() && is_white_space_char(s[start])
        invariant
            start <= s.len(),
            trim_start(s@) == trim_start(s@.subrange(start as int, s@.len() as int)),
        decreases s.len() - start,
    {
        let ghost rest = s@.subrange(start as int, s@.len() as int);
        assert(rest.drop_first() =~= s@.subrange(start + 1, s@.len() as int));
        start = start + 1;
    }
    let ghost front = s@.subrange(start as int, s@.len() as int);
    assert(trim_start(front) == front);
    let mut end: usize = s.len();
    while end > start && is_white_space_char(s[end - 1])
        invariant
            start <= end <= s.len(),
            front == s@.subrange(start as int, s@.len() as int),
            trim_end(front) == trim_end(s@.subrange(start as int, end as int)),
        decreases end,
    {
        let ghost part = s@.subrange(start as int, end as int);
        assert(part.drop_last() =~= s@.subrange(start as int, end - 1));
        end = end - 1;
    }
    let mut out: Vec<char> = Vec::new();
    let mut i: usize = start;
    while i < end
        invariant
            start <= i <= end <= s.len(),
            out@ == s@.subrange(start as int, i as int),
        decreases end - i,
    {
        out.push(s[i]);
        i = i + 1;
        assert(s@.subrange(start as int, i as int) =~= s@.subrange(start as int, i - 1).push(s@[i - 1]));
    }
    out
}

/// The characters of `s`.
pub fn chars_of(s: &str) -> (v: Vec<char>)
    ensures
        v@ == s@,
{
    let mut v: Vec<char> = Vec::new();
    for c in it: s.chars()
        invariant
            v@ == it.seq().take(it.index() as int),
            it.seq() == s@,
    {
        v.push(c);
    }
    v
}

/// The text made of the characters `v`: `std`'s `String: FromIterator<char>`.
#[verifier::external_body]
pub(crate) fn string_of(v: &Vec<char>) -> (s: String)
    ensures
        s@ == v@,
{
    v.iter().collect::<String>()
}

/// A copy of `s`.
pub fn copy_string(s: &String) -> (c: String)
    ensures
        c@ == s@,
{
    s.clone()
}

/// The pieces of `s` between occurrences of `sep`, as `s.split(sep)` yields them.
pub fn split_chars(s: &Vec<char>, sep: char) -> (parts: Vec<Vec<char>>)
    ensures
        pieces_view(parts@) == split_on(s@, sep),
{
    let mut done: Vec<Vec<char>> = Vec::new();
    let mut cur: Vec<char> = Vec::new();
    let mut i: usize = 0;
    while i < s.len()
        invariant
            i <= s.len(),
            pieces_view(done@).push(cur@) == split_on(s@.take(i as int), sep),
        decreases s.len() - i,
    {
        let c = s[i];
        let ghost before = s@.take(i as int);
        assert(s@.take(i + 1).drop_last() =~= before);
        assert(s@.take(i + 1).last() == c);
        if c == sep {
            let ghost old_done = pieces_view(done@);
            let piece = cur;
            done.push(piece);
            cur = Vec::new();
            assert(pieces_view(done@) =~= old_done.push(piece@));
            assert(pieces_view(done@).push(cur@) =~= old_done.push(piece@).push(
                Seq::<char>::empty(),
            ));
        } else {
            let ghost old_cur = cur@;
            cur.push(c);
            let ghost whole = pieces_view(done@).push(old_cur);
            assert(pieces_view(done@).push(cur@) =~= whole.update(
                whole.len() - 1,
                whole.last().push(c),
            ));
        }
        i = i + 1;
    }
    assert(s@.take(s@.len() as int) =~= s@);
    let ghost old_done = pieces_view(done@);
    done.push(cur);
    assert(pieces_view(done@) =~= old_done.push(cur@));
    done
}

/// The pieces from `start` on, put together with `sep` between each two.
pub fn join_chars_from(parts: &Vec<Vec<char>>, start: usize, sep: char) -> (s: Vec<char>)
    requires
        start <= parts.len(),
    ensures
        s@ == join_with(pieces_view(parts@).subrange(start as int, parts.len() as int), sep),
{
    let ghost all = pieces_view(parts@).subrange(start as int, parts.len() as int);
    let mut out: Vec<char> = Vec::new();
    let mut i: usize = start;
    while i < parts.len()
        invariant
            start <= i <= parts.len(),
            all == pieces_view(parts@).subrange(start as int, parts.len() as int),
            out@ == join_with(all.take(i - start), sep),
        decreases parts.len() - i,
    {
        let ghost before = out@;
        let ghost ps = all.take(i - start + 1);
        assert(ps.drop_last() =~= all.take(i - start));
        assert(ps.last() == parts[i as int]@);
        if i > start {
            out.push(sep);
        }
        let piece = &parts[i];
        let mut j: usize = 0;
        while j < piece.len()
            invariant
                j <= piece.len(),
                out@ == (if i > start {
                    before.push(sep)
                } else {
                    before
                }) + piece@.take(j as int),
            decreases piece.len() - j,
        {
            out.push(piece[j]);
            j = j + 1;
            assert(piece@.take(j as int) =~= piece@.take(j - 1).push(piece[j - 1]));
        }
        assert(piece@.take(piece.len() as int) =~= piece@);
        if i == start {
            assert(ps =~= seq![parts[start as int]@]);
        }
        i = i + 1;
    }
    assert(all.take(parts.len() - start) =~= all);
    out
}

/// The pieces put together with `sep` between each two.
pub fn join_chars(parts: &Vec<Vec<char>>, sep: char) -> (s: Vec<char>)
    ensures
        s@ == join_with(pieces_view(parts@), sep),
{
    let s = join_chars_from(parts, 0, sep);
    assert(pieces_view(parts@).subrange(0, parts.len() as int) =~= pieces_view(parts@));
    s
}

/// The pieces of `s` between occurrences of `sep`, as owned strings.
pub fn split_text(s: &str, sep: char) -> (parts: Vec<String>)
    ensures
        strings_view(parts@) == split_on(s@, sep),
{
    let cs = chars_of(s);
    let pieces = split_chars(&cs, sep);
    let mut out: Vec<String> = Vec::new();
    let mut i: usize = 0;
    while i < pieces.len()
        invariant
            i <= pieces.len(),
            strings_view(out@) == pieces_view(pieces@).take(i as int),
        decreases pieces.len() - i,
    {
        let piece = string_of(&pieces[i]);
        let ghost before = strings_view(out@);
        out.push(piece);
        assert(strings_view(out@) =~= before.push(piece@));
        assert(pieces_view(pieces@).take(i + 1) =~= pieces_view(pieces@).take(i as int).push(
            pieces[i as int]@,
        ));
        i = i + 1;
    }
    assert(pieces_view(pieces@).take(pieces.len() as int) =~= pieces_view(pieces@));
    out
}

/// The strings put together with `sep` between each two.
pub fn join_text(parts: &Vec<String>, sep: char) -> (s: String)
    ensures
        s@ == join_with(strings_view(parts@), sep),
{
    let mut pieces: Vec<Vec<char>> = Vec::new();
    let mut i: usize = 0;
    while i < parts.len()
        invariant
            i <= parts.len(),
            pieces_view(pieces@) == strings_view(parts@).take(i as int),
        decreases parts.len() - i,
    {
        let cs = chars_of(parts[i].as_str());
        let ghost before = pieces_view(pieces@);
        pieces.push(cs);
        assert(pieces_view(pieces@) =~= before.push(cs@));
        assert(strings_view(parts@).take(i + 1) =~= strings_view(parts@).take(i as int).push(
            parts[i as int]@,
        ));
        i = i + 1;
    }
    assert(strings_view(parts@).take(parts.len() as int) =~= strings_view(parts@));
    let joined = join_chars(&pieces, sep);
    string_of(&joined)
}

} // verus!
