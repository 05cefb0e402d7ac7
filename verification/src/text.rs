//! Character-level text helpers shared by the export, config and UI code:
//! whitespace trimming, `str::lines`-style splitting, joining and decimal
//! rendering, each with the specification it is proved against.
use vstd::prelude::*;

verus! {

/// Whether `c` has the Unicode `White_Space` property (what
/// `char::is_whitespace` decides): tab, line feed, vertical tab, form feed,
/// carriage return, space, next line, no-break space, ogham space mark, the
/// spaces U+2000 to U+200A, line and paragraph separator, narrow no-break
/// space, medium mathematical space and ideographic space.
pub open spec fn spec_is_whitespace(c: char) -> bool {
    let n = c as u32;
    ||| 0x09 <= n <= 0x0D
    ||| n == 0x20
    ||| n == 0x85
    ||| n == 0xA0
    ||| n == 0x1680
    ||| 0x2000 <= n <= 0x200A
    ||| n == 0x2028
    ||| n == 0x2029
    ||| n == 0x202F
    ||| n == 0x205F
    ||| n == 0x3000
}

/// Whether `c` is whitespace (see `spec_is_whitespace`).
pub fn is_whitespace(c: char) -> (b: bool)
    ensures
        b == spec_is_whitespace(c),
{
    let n = c as u32;
    (0x09 <= n && n <= 0x0D) || n == 0x20 || n == 0x85 || n == 0xA0 || n == 0x1680 || (0x2000 <= n
        && n <= 0x200A) || n == 0x2028 || n == 0x2029 || n == 0x202F || n == 0x205F || n == 0x3000
}

/// Calls `String::push`, which appends one character.
#[verifier::external_body]
pub(crate) fn push_char(s: &mut String, c: char)
    ensures
        final(s)@ == old(s)@.push(c),
{
    s.push(c);
}

/// Calls `String::pop`, which removes the last character when there is one.
#[verifier::external_body]
pub(crate) fn pop_char(s: &mut String)
    ensures
        old(s)@.len() > 0 ==> final(s)@ == old(s)@.drop_last(),
        old(s)@.len() == 0 ==> final(s)@ == old(s)@,
{
    s.pop();
}

/// The characters of `s`, in order.
pub fn chars_of(s: &str) -> (res: Vec<char>)
    ensures
        res@ == s@,
{
    let mut res: Vec<char> = Vec::new();
    for c in it: s.chars()
        invariant
            res@ == it.history(),
    {
        res.push(c);
    }
    res
}

/// A `String` holding exactly the characters `cs[from..to]`.
pub fn string_from_range(cs: &Vec<char>, from: usize, to: usize) -> (res: String)
    requires
        from <= to <= cs@.len(),
    ensures
        res@ == cs@.subrange(from as int, to as int),
{
    let mut res = String::new();
    let mut i = from;
    while i < to
        invariant
            from <= i <= to <= cs@.len(),
            res@ == cs@.subrange(from as int, i as int),
        decreases to - i,
    {
        push_char(&mut res, cs[i]);
        assert(cs@.subrange(from as int, i + 1) == cs@.subrange(from as int, i as int).push(cs@[i as int]));
        i += 1;
    }
    res
}

/// A `String` holding exactly the characters of `cs`.
pub fn string_from_chars(cs: &Vec<char>) -> (res: String)
    ensures
        res@ == cs@,
{
    let res = string_from_range(cs, 0, cs.len());
    assert(cs@.subrange(0, cs@.len() as int) == cs@);
    res
}

/// Appends the characters of `t` to `s`.
pub fn append_str(s: &mut String, t: &str)
    ensures
        final(s)@ == old(s)@ + t@,
{
    s.append(t);
}

/// Whether `a` and `b` hold the same characters.
pub fn same_text(a: &str, b: &str) -> (r: bool)
    ensures
        r == (a@ == b@),
{
    let x = chars_of(a);
    let y = chars_of(b);
    if x.len() != y.len() {
        return false;
    }
    let mut i: usize = 0;
    while i < x.len()
        invariant
            x@ == a@,
            y@ == b@,
            x@.len() == y@.len(),
            i <= x@.len(),
            forall|j: int| 0 <= j < i ==> x@[j] == y@[j],
        decreases x.len() - i,
    {
        if x[i] != y[i] {
            return false;
        }
        i += 1;
    }
    assert(x@ =~= y@);
    true
}

/// Every character of `s` is whitespace (so `s.trim()` would be empty).
pub open spec fn is_blank(s: Seq<char>) -> bool {
    forall|i: int| 0 <= i < s.len() ==> #[trigger] spec_is_whitespace(s[i])
}

/// Number of whitespace characters at the start of `s`.
pub open spec fn leading_ws(s: Seq<char>) -> nat
    decreases s.len(),
{
    if s.len() > 0 && spec_is_whitespace(s[0]) {
        1 + leading_ws(s.drop_first())
    } else {
        0
    }
}

/// Number of whitespace characters at the end of `s`.
pub open spec fn trailing_ws(s: Seq<char>) -> nat
    decreases s.len(),
{
    if s.len() > 0 && spec_is_whitespace(s.last()) {
        1 + trailing_ws(s.drop_last())
    } else {
        0
    }
}

/// `s` with leading and trailing whitespace removed, as `str::trim` does.
pub open spec fn trimmed(s: Seq<char>) -> Seq<char> {
    if is_blank(s) {
        Seq::empty()
    } else {
        s.subrange(leading_ws(s) as int, s.len() - trailing_ws(s))
    }
}

/// `leading_ws` is the length of the longest all-whitespace prefix.
pub proof fn lemma_leading_ws(s: Seq<char>, k: int)
    requires
        0 <= k <= s.len(),
        forall|j: int| 0 <= j < k ==> #[trigger] spec_is_whitespace(s[j]),
        k == s.len() || !spec_is_whitespace(s[k]),
    ensures
        leading_ws(s) == k,
    decreases k,
{
    if k > 0 {
        let t = s.drop_first();
        assert forall|j: int| 0 <= j < k - 1 implies #[trigger] spec_is_whitespace(t[j]) by {
            assert(t[j] == s[j + 1]);
        }
        if k - 1 < t.len() {
            assert(t[k - 1] == s[k]);
        }
        lemma_leading_ws(t, k - 1);
    }
}

/// `trailing_ws` is the length of the longest all-whitespace suffix.
pub proof fn lemma_trailing_ws(s: Seq<char>, k: int)
    requires
        0 <= k <= s.len(),
        forall|j: int| s.len() - k <= j < s.len() ==> #[trigger] spec_is_whitespace(s[j]),
        k == s.len() || !spec_is_whitespace(s[s.len() - k - 1]),
    ensures
        trailing_ws(s) == k,
    decreases k,
{
    if k > 0 {
        let t = s.drop_last();
        assert forall|j: int| t.len() - (k - 1) <= j < t.len() implies #[trigger] spec_is_whitespace(
            t[j],
        ) by {
            assert(t[j] == s[j]);
        }
        if k - 1 < t.len() {
            assert(t[t.len() - (k - 1) - 1] == s[s.len() - k - 1]);
        }
        lemma_trailing_ws(t, k - 1);
    }
}

proof fn lemma_leading_ws_props(s: Seq<char>)
    ensures
        leading_ws(s) <= s.len(),
        forall|j: int| 0 <= j < leading_ws(s) ==> #[trigger] spec_is_whitespace(s[j]),
        leading_ws(s) < s.len() ==> !spec_is_whitespace(s[leading_ws(s) as int]),
    decreases s.len(),
{
    if s.len() > 0 && spec_is_whitespace(s[0]) {
        let t = s.drop_first();
        lemma_leading_ws_props(t);
        assert forall|j: int| 0 <= j < leading_ws(s) implies #[trigger] spec_is_whitespace(s[j]) by {
            if j > 0 {
                assert(s[j] == t[j - 1]);
            }
        }
        if leading_ws(s) < s.len() {
            assert(s[leading_ws(s) as int] == t[leading_ws(t) as int]);
        }
    }
}

proof fn lemma_trailing_ws_props(s: Seq<char>)
    ensures
        trailing_ws(s) <= s.len(),
        forall|j: int| s.len() - trailing_ws(s) <= j < s.len() ==> #[trigger] spec_is_whitespace(s[j]),
        trailing_ws(s) < s.len() ==> !spec_is_whitespace(s[s.len() - trailing_ws(s) - 1]),
    decreases s.len(),
{
    if s.len() > 0 && spec_is_whitespace(s.last()) {
        let t = s.drop_last();
        lemma_trailing_ws_props(t);
        assert forall|j: int| s.len() - trailing_ws(s) <= j < s.len() implies #[trigger] spec_is_whitespace(
            s[j],
        ) by {
            if j < s.len() - 1 {
                assert(s[j] == t[j]);
            }
        }
        if trailing_ws(s) < s.len() {
            assert(s[s.len() - trailing_ws(s) - 1] == t[t.len() - trailing_ws(t) - 1]);
        }
    }
}

/// Trimming cuts whitespace off both ends and nothing else: the result is
/// a run of `s` between two all-whitespace ends, and, unless empty, starts
/// and ends with a character that is not whitespace. A text of whitespace
/// only trims to nothing.
pub proof fn lemma_trimmed_shape(s: Seq<char>)
    ensures
        exists|a: int, b: int|
            0 <= a <= b <= s.len() && trimmed(s) == s.subrange(a, b) && (forall|j: int|
                0 <= j < a ==> #[trigger] spec_is_whitespace(s[j])) && (forall|j: int|
                b <= j < s.len() ==> #[trigger] spec_is_whitespace(s[j])),
        trimmed(s).len() > 0 ==> !spec_is_whitespace(trimmed(s)[0]) && !spec_is_whitespace(
            trimmed(s).last(),
        ),
        trimmed(s).len() == 0 <==> is_blank(s),
{
    lemma_leading_ws_props(s);
    lemma_trailing_ws_props(s);
    let a = leading_ws(s) as int;
    let b = s.len() - trailing_ws(s);
    if is_blank(s) {
        assert(s.subrange(0, 0) =~= Seq::<char>::empty());
        assert(trimmed(s) == s.subrange(0, 0));
    } else {
        let k = choose|k: int| 0 <= k < s.len() && !spec_is_whitespace(s[k]);
        assert(a <= k);
        assert(k < b);
        assert(a < b);
        assert(trimmed(s)[0] == s[a]);
        assert(trimmed(s).last() == s[b - 1]);
        assert(trimmed(s) == s.subrange(a, b));
    }
}

/// Whether every character of `s` is whitespace.
pub fn is_blank_str(s: &str) -> (b: bool)
    ensures
        b == is_blank(s@),
{
    let cs = chars_of(s);
    let mut i: usize = 0;
    while i < cs.len()
        invariant
            cs@ == s@,
            i <= cs@.len(),
            forall|j: int| 0 <= j < i ==> #[trigger] spec_is_whitespace(cs@[j]),
        decreases cs.len() - i,
    {
        if !is_whitespace(cs[i]) {
            return false;
        }
        i += 1;
    }
    true
}

/// `s` with leading and trailing whitespace removed (`str::trim`).
pub fn trim(s: &str) -> (res: String)
    ensures
        res@ == trimmed(s@),
{
    let cs = chars_of(s);
    let n = cs.len();
    let mut lead: usize = 0;
    while lead < n && is_whitespace(cs[lead])
        invariant
            cs@ == s@,
            n == cs@.len(),
            lead <= n,
            forall|j: int| 0 <= j < lead ==> #[trigger] spec_is_whitespace(cs@[j]),
        decreases n - lead,
    {
        lead += 1;
    }
    proof {
        lemma_leading_ws(s@, lead as int);
    }
    if lead == n {
        return String::new();
    }
    let mut trail: usize = 0;
    while trail < n - lead && is_whitespace(cs[n - 1 - trail])
        invariant
            cs@ == s@,
            n == cs@.len(),
            lead < n,
            trail <= n - lead,
            !spec_is_whitespace(cs@[lead as int]),
            forall|j: int| n - trail <= j < n ==> #[trigger] spec_is_whitespace(cs@[j]),
        decreases n - lead - trail,
    {
        trail += 1;
    }
    proof {
        assert(trail < n - lead);
        lemma_trailing_ws(s@, trail as int);
        assert(!spec_is_whitespace(s@[lead as int]));
    }
    string_from_range(&cs, lead, n - trail)
}

/// `line` without one trailing carriage return, if it has one.
pub open spec fn strip_cr(line: Seq<char>) -> Seq<char> {
    if line.len() > 0 && line.last() == '\r' {
        line.drop_last()
    } else {
        line
    }
}

/// The lines of `rest`, given the lines `done` already completed and the
/// characters `cur` of the line in progress: a `'\n'` ends a line (dropping
/// one `'\r'` just before it), and an unterminated last line is kept only
/// when it is not empty.
pub open spec fn lines_from(rest: Seq<char>, done: Seq<Seq<char>>, cur: Seq<char>) -> Seq<Seq<char>>
    decreases rest.len(),
{
    if rest.len() == 0 {
        if cur.len() == 0 {
            done
        } else {
            done.push(cur)
        }
    } else if rest[0] == '\n' {
        lines_from(rest.drop_first(), done.push(strip_cr(cur)), Seq::empty())
    } else {
        lines_from(rest.drop_first(), done, cur.push(rest[0]))
    }
}

/// The lines of `s` as `str::lines` yields them: split at `"\n"` or
/// `"\r\n"`, with no empty line after a final line ending.
pub open spec fn lines_of(s: Seq<char>) -> Seq<Seq<char>> {
    lines_from(s, Seq::empty(), Seq::empty())
}

/// Splits `s` into its lines (see `lines_of`).
pub fn lines(s: &str) -> (res: Vec<String>)
    ensures
        res@.len() == lines_of(s@).len(),
        forall|i: int| 0 <= i < res@.len() ==> #[trigger] res@[i]@ == lines_of(s@)[i],
{
    let cs = chars_of(s);
    let mut done: Vec<String> = Vec::new();
    let mut cur: Vec<char> = Vec::new();
    let ghost mut done_v: Seq<Seq<char>> = Seq::empty();
    let mut i: usize = 0;
    assert(cs@.subrange(0, cs@.len() as int) == cs@);
    assert(cur@ == Seq::<char>::empty());
    while i < cs.len()
        invariant
            cs@ == s@,
            i <= cs@.len(),
            done@.len() == done_v.len(),
            forall|k: int| 0 <= k < done@.len() ==> #[trigger] done@[k]@ == done_v[k],
            lines_from(cs@.subrange(i as int, cs@.len() as int), done_v, cur@) == lines_of(s@),
        decreases cs.len() - i,
    {
        let c = cs[i];
        let ghost rest = cs@.subrange(i as int, cs@.len() as int);
        assert(rest.drop_first() == cs@.subrange(i + 1, cs@.len() as int));
        assert(rest[0] == c);
        if c == '\n' {
            let n = cur.len();
            let line = if n > 0 && cur[n - 1] == '\r' {
                string_from_range(&cur, 0, n - 1)
            } else {
                string_from_range(&cur, 0, n)
            };
            proof {
                assert(cur@.subrange(0, n as int) == cur@);
                if n > 0 {
                    assert(cur@.drop_last() == cur@.subrange(0, n - 1));
                }
                done_v = done_v.push(strip_cr(cur@));
            }
            done.push(line);
            cur = Vec::new();
        } else {
            cur.push(c);
        }
        i += 1;
    }
    if cur.len() > 0 {
        let line = string_from_chars(&cur);
        proof {
            done_v = done_v.push(cur@);
        }
        done.push(line);
    }
    proof {
        assert(cs@.subrange(cs@.len() as int, cs@.len() as int) == Seq::<char>::empty());
    }
    done
}

/// `line` holds no line feed and does not end in a carriage return, so
/// `lines_of` reads it back unchanged.
pub open spec fn plain_line(line: Seq<char>) -> bool {
    &&& !line.contains('\n')
    &&& !(line.len() > 0 && line.last() == '\r')
}

/// Characters without a line feed only extend the line in progress.
proof fn lemma_lines_from_plain(x: Seq<char>, rest: Seq<char>, done: Seq<Seq<char>>, cur: Seq<char>)
    requires
        !x.contains('\n'),
    ensures
        lines_from(x + rest, done, cur) == lines_from(rest, done, cur + x),
    decreases x.len(),
{
    if x.len() == 0 {
        assert(x + rest =~= rest);
        assert(cur + x =~= cur);
    } else {
        let t = x + rest;
        assert(t[0] == x[0]);
        assert(x[0] != '\n') by {
            if x[0] == '\n' {
                assert(x.contains('\n'));
            }
        }
        assert(t.drop_first() =~= x.drop_first() + rest);
        assert(!x.drop_first().contains('\n')) by {
            if x.drop_first().contains('\n') {
                let k = choose|k: int| 0 <= k < x.drop_first().len() && x.drop_first()[k] == '\n';
                assert(x[k + 1] == '\n');
            }
        }
        lemma_lines_from_plain(x.drop_first(), rest, done, cur.push(x[0]));
        assert(cur.push(x[0]) + x.drop_first() =~= cur + x);
    }
}

/// Plain lines joined and each ended by a line feed are read back as those
/// lines.
proof fn lemma_lines_from_joined(parts: Seq<Seq<char>>, rest: Seq<char>, done: Seq<Seq<char>>)
    requires
        parts.len() > 0,
        forall|i: int| 0 <= i < parts.len() ==> plain_line(#[trigger] parts[i]),
    ensures
        lines_from(join(parts, "\n"@) + "\n"@ + rest, done, Seq::empty()) == lines_from(
            rest,
            done + parts,
            Seq::empty(),
        ),
    decreases parts.len(),
{
    reveal_strlit("\n");
    let last = parts.last();
    assert(plain_line(last));
    let nl_rest = "\n"@ + rest;
    assert(nl_rest[0] == '\n');
    assert(nl_rest.drop_first() =~= rest);
    assert(strip_cr(last) == last);
    if parts.len() == 1 {
        assert(join(parts, "\n"@) == last);
        assert(join(parts, "\n"@) + "\n"@ + rest =~= last + nl_rest);
        lemma_lines_from_plain(last, nl_rest, done, Seq::empty());
        assert(Seq::<char>::empty() + last =~= last);
        assert(done + parts =~= done.push(last));
    } else {
        let front = parts.drop_last();
        assert forall|i: int| 0 <= i < front.len() implies plain_line(#[trigger] front[i]) by {
            assert(front[i] == parts[i]);
        }
        assert(join(parts, "\n"@) == join(front, "\n"@) + "\n"@ + last);
        assert(join(parts, "\n"@) + "\n"@ + rest =~= join(front, "\n"@) + "\n"@ + (last + nl_rest));
        lemma_lines_from_joined(front, last + nl_rest, done);
        lemma_lines_from_plain(last, nl_rest, done + front, Seq::empty());
        assert(Seq::<char>::empty() + last =~= last);
        assert((done + front).push(last) =~= done + parts);
    }
}

/// Plain lines joined with line feeds are read back as exactly those lines,
/// as long as the last one is not empty.
pub proof fn lemma_lines_of_join(parts: Seq<Seq<char>>)
    requires
        parts.len() > 0 ==> parts.last().len() > 0,
        forall|i: int| 0 <= i < parts.len() ==> plain_line(#[trigger] parts[i]),
    ensures
        lines_of(join(parts, "\n"@)) == parts,
{
    if parts.len() == 0 {
        assert(join(parts, "\n"@) == Seq::<char>::empty());
        assert(parts =~= Seq::<Seq<char>>::empty());
    } else {
        let last = parts.last();
        assert(plain_line(last));
        if parts.len() == 1 {
            assert(join(parts, "\n"@) == last);
            lemma_lines_from_plain(last, Seq::empty(), Seq::empty(), Seq::empty());
            assert(last + Seq::<char>::empty() =~= last);
            assert(Seq::<char>::empty() + last =~= last);
            assert(Seq::<Seq<char>>::empty().push(last) =~= parts);
        } else {
            let front = parts.drop_last();
            assert forall|i: int| 0 <= i < front.len() implies plain_line(#[trigger] front[i]) by {
                assert(front[i] == parts[i]);
            }
            lemma_lines_from_joined(front, last, Seq::empty());
            assert(join(parts, "\n"@) == join(front, "\n"@) + "\n"@ + last);
            lemma_lines_from_plain(last, Seq::empty(), Seq::<Seq<char>>::empty() + front, Seq::empty());
            assert(last + Seq::<char>::empty() =~= last);
            assert(Seq::<char>::empty() + last =~= last);
            assert((Seq::<Seq<char>>::empty() + front).push(last) =~= parts);
        }
    }
}

/// No line that `lines_from` completes holds a line feed, provided none of
/// the lines given to it does.
proof fn lemma_lines_from_no_line_feed(rest: Seq<char>, done: Seq<Seq<char>>, cur: Seq<char>)
    requires
        forall|i: int| 0 <= i < done.len() ==> !(#[trigger] done[i]).contains('\n'),
        !cur.contains('\n'),
    ensures
        forall|i: int|
            0 <= i < lines_from(rest, done, cur).len() ==> !(#[trigger] lines_from(rest, done, cur)[i]).contains(
                '\n',
            ),
    decreases rest.len(),
{
    if rest.len() == 0 {
        if cur.len() > 0 {
            assert(lines_from(rest, done, cur) == done.push(cur));
            assert forall|i: int| 0 <= i < done.push(cur).len() implies !(#[trigger] done.push(cur)[i]).contains(
                '\n',
            ) by {
                if i < done.len() {
                    assert(done.push(cur)[i] == done[i]);
                }
            }
        }
    } else if rest[0] == '\n' {
        let line = strip_cr(cur);
        assert(!line.contains('\n')) by {
            if line.contains('\n') {
                let k = choose|k: int| 0 <= k < line.len() && line[k] == '\n';
                assert(cur[k] == '\n');
            }
        }
        let d = done.push(line);
        assert forall|i: int| 0 <= i < d.len() implies !(#[trigger] d[i]).contains('\n') by {
            if i < done.len() {
                assert(d[i] == done[i]);
            }
        }
        lemma_lines_from_no_line_feed(rest.drop_first(), d, Seq::empty());
        assert(lines_from(rest, done, cur) == lines_from(rest.drop_first(), d, Seq::empty()));
    } else {
        let c = cur.push(rest[0]);
        assert(!c.contains('\n')) by {
            if c.contains('\n') {
                let k = choose|k: int| 0 <= k < c.len() && c[k] == '\n';
                if k < cur.len() {
                    assert(cur[k] == '\n');
                }
            }
        }
        lemma_lines_from_no_line_feed(rest.drop_first(), done, c);
        assert(lines_from(rest, done, cur) == lines_from(rest.drop_first(), done, c));
    }
}

/// No line of `lines_of(s)` holds a line feed.
pub proof fn lemma_lines_of_no_line_feed(s: Seq<char>)
    ensures
        forall|i: int| 0 <= i < lines_of(s).len() ==> !(#[trigger] lines_of(s)[i]).contains('\n'),
{
    lemma_lines_from_no_line_feed(s, Seq::empty(), Seq::empty());
}

/// `needle` occurs in `hay` as a run of consecutive characters.
pub open spec fn occurs_in(needle: Seq<char>, hay: Seq<char>) -> bool {
    exists|i: int|
        0 <= i && i + needle.len() <= hay.len() && #[trigger] hay.subrange(i, i + needle.len())
            == needle
}

/// Whether `needle` occurs in `hay` (see `occurs_in`).
pub fn contains_text(hay: &str, needle: &str) -> (res: bool)
    ensures
        res == occurs_in(needle@, hay@),
{
    let h = chars_of(hay);
    let n = chars_of(needle);
    if n.len() == 0 {
        assert(hay@.subrange(0, 0 + needle@.len() as int) =~= needle@);
        return true;
    }
    if n.len() > h.len() {
        return false;
    }
    let hl = h.len();
    let last = hl - n.len();
    let mut i: usize = 0;
    while i <= last
        invariant
            h@ == hay@,
            n@ == needle@,
            last == h@.len() - n@.len(),
            n@.len() > 0,
            hl == h@.len(),
            i <= last + 1,
            forall|k: int| 0 <= k < i ==> #[trigger] h@.subrange(k, k + n@.len()) != n@,
        decreases last + 1 - i,
    {
        let mut j: usize = 0;
        while j < n.len() && h[i + j] == n[j]
            invariant
                h@ == hay@,
                n@ == needle@,
                i <= last,
                last == h@.len() - n@.len(),
                hl == h@.len(),
                j <= n@.len(),
                forall|m: int| 0 <= m < j ==> h@[i + m] == n@[m],
            decreases n.len() - j,
        {
            j += 1;
        }
        if j == n.len() {
            assert(h@.subrange(i as int, i + n@.len()) =~= n@);
            return true;
        }
        assert(h@.subrange(i as int, i + n@.len())[j as int] != n@[j as int]);
        i += 1;
    }
    assert forall|k: int| 0 <= k && k + needle@.len() <= hay@.len() implies #[trigger] hay@.subrange(
        k,
        k + needle@.len(),
    ) != needle@ by {
        assert(k < i);
    }
    false
}

/// `parts` joined with `sep` between consecutive parts.
pub open spec fn join(parts: Seq<Seq<char>>, sep: Seq<char>) -> Seq<char>
    decreases parts.len(),
{
    if parts.len() == 0 {
        Seq::empty()
    } else if parts.len() == 1 {
        parts[0]
    } else {
        join(parts.drop_last(), sep) + sep + parts.last()
    }
}

/// The character for the decimal digit `d`.
pub open spec fn digit_char(d: nat) -> char {
    if d == 0 {
        '0'
    } else if d == 1 {
        '1'
    } else if d == 2 {
        '2'
    } else if d == 3 {
        '3'
    } else if d == 4 {
        '4'
    } else if d == 5 {
        '5'
    } else if d == 6 {
        '6'
    } else if d == 7 {
        '7'
    } else if d == 8 {
        '8'
    } else {
        '9'
    }
}

/// The decimal representation of `n`, without leading zeros.
pub open spec fn decimal(n: nat) -> Seq<char>
    decreases n,
{
    if n < 10 {
        seq![digit_char(n)]
    } else {
        decimal(n / 10).push(digit_char(n % 10))
    }
}

/// The character for the decimal digit `d` (see `digit_char`).
fn digit(d: u128) -> (c: char)
    requires
        d < 10,
    ensures
        c == digit_char(d as nat),
{
    if d == 0 {
        '0'
    } else if d == 1 {
        '1'
    } else if d == 2 {
        '2'
    } else if d == 3 {
        '3'
    } else if d == 4 {
        '4'
    } else if d == 5 {
        '5'
    } else if d == 6 {
        '6'
    } else if d == 7 {
        '7'
    } else if d == 8 {
        '8'
    } else {
        '9'
    }
}

/// Renders `n` in decimal, the way `{}` formats an unsigned integer.
pub fn decimal_string(n: u128) -> (res: String)
    ensures
        res@ == decimal(n as nat),
    decreases n,
{
    if n < 10 {
        let mut s = String::new();
        push_char(&mut s, digit(n));
        s
    } else {
        let mut s = decimal_string(n / 10);
        push_char(&mut s, digit(n % 10));
        s
    }
}

} // verus!
