//! Character-level text operations used across the library: whitespace,
//! word splitting, splitting on a separator, joining, decimal rendering.
use vstd::prelude::*;

verus! {

/// The characters with the Unicode `White_Space` property.
pub open spec fn is_ws(c: char) -> bool {
    let u = c as u32;
    ||| 0x09 <= u <= 0x0D
    ||| u == 0x20
    ||| u == 0x85
    ||| u == 0xA0
    ||| u == 0x1680
    ||| 0x2000 <= u <= 0x200A
    ||| u == 0x2028
    ||| u == 0x2029
    ||| u == 0x202F
    ||| u == 0x205F
    ||| u == 0x3000
}

/// Whether `c` is a whitespace character (Unicode `White_Space`).
pub fn is_whitespace(c: char) -> (b: bool)
    ensures
        b == is_ws(c),
        c == ' ' || c == '\t' || c == '\n' || c == '\r' ==> b,
        0x21 <= c as u32 <= 0x7E ==> !b,
        '0' <= c <= '9' || 'a' <= c <= 'z' || 'A' <= c <= 'Z' ==> !b,
{
    let u = c as u32;
    (0x09 <= u && u <= 0x0D) || u == 0x20 || u == 0x85 || u == 0xA0 || u == 0x1680 || (0x2000 <= u
        && u <= 0x200A) || u == 0x2028 || u == 0x2029 || u == 0x202F || u == 0x205F || u == 0x3000
}

/// The maximal runs of non-whitespace characters of `s`, in order.
pub open spec fn words(s: Seq<char>) -> Seq<Seq<char>>
    decreases s.len(),
{
    if s.len() == 0 {
        seq![]
    } else {
        let p = s.drop_last();
        let c = s.last();
        if is_ws(c) {
            words(p)
        } else if p.len() > 0 && !is_ws(p.last()) {
            let w = words(p);
            w.update(w.len() - 1, w.last().push(c))
        } else {
            words(p).push(seq![c])
        }
    }
}

/// The pieces of `s` between occurrences of `sep` (always at least one piece).
pub open spec fn split_on(s: Seq<char>, sep: char) -> Seq<Seq<char>>
    decreases s.len(),
{
    if s.len() == 0 {
        seq![seq![]]
    } else {
        let p = split_on(s.drop_last(), sep);
        if s.last() == sep {
            p.push(seq![])
        } else {
            p.update(p.len() - 1, p.last().push(s.last()))
        }
    }
}

/// The pieces of `ws` written one after another with `sep` between them.
pub open spec fn join(ws: Seq<Seq<char>>, sep: Seq<char>) -> Seq<char>
    decreases ws.len(),
{
    if ws.len() == 0 {
        seq![]
    } else if ws.len() == 1 {
        ws[0]
    } else {
        join(ws.drop_last(), sep) + sep + ws.last()
    }
}

/// The views of a sequence of strings.
pub open spec fn views(v: Seq<String>) -> Seq<Seq<char>> {
    v.map_values(|s: String| s@)
}

/// The digit character for a value below ten.
pub open spec fn digit(d: nat) -> char {
    if d == 0 {
        '0'
    } else if d == 1 {
        '1'
    } else if d == 2 {
        '2'
    } else if d == 3 {
        '3'
    } else if d == 4 {
        '4'
    } else if d == 5 {
        '5'
    } else if d == 6 {
        '6'
    } else if d == 7 {
        '7'
    } else if d == 8 {
        '8'
    } else {
        '9'
    }
}

/// The decimal notation of `n`, without leading zeros.
pub open spec fn decimal(n: nat) -> Seq<char>
    decreases n,
{
    if n < 10 {
        seq![digit(n)]
    } else {
        decimal(n / 10).push(digit(n % 10))
    }
}

/// Appends one character to a string (`String::push`).
#[verifier::external_body]
pub fn push_char(s: &mut String, c: char)
    ensures
        final(s)@ == old(s)@.push(c),
{
    s.push(c);
}

/// A copy of a string slice as an owned string (`str::to_string`).
pub fn owned(s: &str) -> (r: String)
    ensures
        r@ == s@,
{
    String::from_str(s)
}

fn digit_char(d: u16) -> (c: char)
    requires
        d < 10,
    ensures
        c == digit(d as nat),
{
    if d == 0 {
        '0'
    } else if d == 1 {
        '1'
    } else if d == 2 {
        '2'
    } else if d == 3 {
        '3'
    } else if d == 4 {
        '4'
    } else if d == 5 {
        '5'
    } else if d == 6 {
        '6'
    } else if d == 7 {
        '7'
    } else if d == 8 {
        '8'
    } else {
        '9'
    }
}

/// Appends the decimal notation of `n` to `out`.
pub fn push_decimal(out: &mut String, n: u16)
    ensures
        final(out)@ == old(out)@ + decimal(n as nat),
    decreases n,
{
    if n >= 10 {
        push_decimal(out, n / 10);
    }
    push_char(out, digit_char(n % 10));
    assert(final(out)@ =~= old(out)@ + decimal(n as nat)) by {
        if n >= 10 {
            assert(decimal(n as nat) == decimal((n / 10) as nat).push(digit((n % 10) as nat)));
        }
    }
}

/// Appending one more piece to a joined sequence.
pub proof fn lemma_join_push(ws: Seq<Seq<char>>, sep: Seq<char>, x: Seq<char>)
    ensures
        join(ws.push(x), sep) == (if ws.len() == 0 {
            x
        } else {
            join(ws, sep) + sep + x
        }),
{
    assert(ws.push(x).drop_last() =~= ws);
}

/// Extending the last piece of a joined sequence by one character.
pub proof fn lemma_join_extend_last(ws: Seq<Seq<char>>, sep: Seq<char>, c: char)
    requires
        ws.len() > 0,
    ensures
        join(ws.update(ws.len() - 1, ws.last().push(c)), sep) == join(ws, sep).push(c),
{
    let u = ws.update(ws.len() - 1, ws.last().push(c));
    if ws.len() == 1 {
        assert(join(u, sep) == u[0]);
    } else {
        assert(u.drop_last() =~= ws.drop_last());
        assert(join(u, sep) == join(ws.drop_last(), sep) + sep + u.last());
        assert(join(u, sep) =~= join(ws, sep).push(c));
    }
}

/// A text ending in a non-whitespace character has at least one word.
pub proof fn lemma_words_nonempty(s: Seq<char>)
    requires
        s.len() > 0,
        !is_ws(s.last()),
    ensures
        words(s).len() > 0,
    decreases s.len(),
{
    let p = s.drop_last();
    if p.len() > 0 && !is_ws(p.last()) {
        lemma_words_nonempty(p);
    }
}

/// Taking one more element of a sequence.
pub proof fn lemma_take_next<A>(s: Seq<A>, i: int)
    requires
        0 <= i < s.len(),
    ensures
        s.take(i + 1).drop_last() == s.take(i),
        s.take(i + 1).last() == s[i],
{
    assert(s.take(i + 1).drop_last() =~= s.take(i));
}

/// The words of `s` written one after another, separated by `sep`.
pub fn join_words(s: &str, sep: char) -> (r: String)
    ensures
        r@ == join(words(s@), seq![sep]),
{
    let n = s.unicode_len();
    let mut out = String::new();
    let mut any = false;
    let mut prev_ws = true;
    let mut i: usize = 0;
    while i < n
        invariant
            n == s@.len(),
            0 <= i <= n,
            out@ == join(words(s@.take(i as int)), seq![sep]),
            any == (words(s@.take(i as int)).len() > 0),
            prev_ws == (i == 0 || is_ws(s@[i - 1])),
        decreases n - i,
    {
        let c = s.get_char(i);
        proof {
            lemma_take_next(s@, i as int);
        }
        let ghost p = s@.take(i as int);
        let ghost w = words(p);
        if is_whitespace(c) {
            prev_ws = true;
        } else if !prev_ws {
            proof {
                lemma_words_nonempty(p);
                lemma_join_extend_last(w, seq![sep], c);
            }
            push_char(&mut out, c);
        } else {
            proof {
                lemma_join_push(w, seq![sep], seq![c]);
            }
            if any {
                push_char(&mut out, sep);
            }
            push_char(&mut out, c);
            assert(out@ =~= join(w.push(seq![c]), seq![sep]));
            any = true;
            prev_ws = false;
        }
        i = i + 1;
    }
    assert(s@.take(n as int) =~= s@);
    out
}

/// The pieces of `s` between occurrences of `sep`, as owned strings.
pub fn split_by(s: &str, sep: char) -> (r: Vec<String>)
    ensures
        views(r@) == split_on(s@, sep),
{
    let n = s.unicode_len();
    let mut done: Vec<String> = Vec::new();
    let mut cur = String::new();
    let mut i: usize = 0;
    while i < n
        invariant
            n == s@.len(),
            0 <= i <= n,
            views(done@).push(cur@) == split_on(s@.take(i as int), sep),
        decreases n - i,
    {
        let c = s.get_char(i);
        proof {
            lemma_take_next(s@, i as int);
        }
        let ghost before = views(done@).push(cur@);
        if c == sep {
            let piece = cur;
            done.push(piece);
            cur = String::new();
            assert(views(done@).push(cur@) =~= before.push(seq![]));
        } else {
            push_char(&mut cur, c);
            assert(views(done@).push(cur@) =~= before.update(
                before.len() - 1,
                before.last().push(c),
            ));
        }
        i = i + 1;
    }
    assert(s@.take(n as int) =~= s@);
    done.push(cur);
    assert(views(done@) =~= split_on(s@, sep));
    done
}

/// Splitting on a separator and joining the pieces back with it gives the
/// text itself.
pub proof fn lemma_join_split(s: Seq<char>, sep: char)
    ensures
        join(split_on(s, sep), seq![sep]) == s,
    decreases s.len(),
{
    if s.len() > 0 {
        let p = s.drop_last();
        lemma_join_split(p, sep);
        lemma_split_nonempty(p, sep);
        let w = split_on(p, sep);
        if s.last() == sep {
            lemma_join_push(w, seq![sep], seq![]);
        } else {
            lemma_join_extend_last(w, seq![sep], s.last());
        }
        assert(join(split_on(s, sep), seq![sep]) =~= s);
    }
}

/// Splitting always yields at least one piece.
pub proof fn lemma_split_nonempty(s: Seq<char>, sep: char)
    ensures
        split_on(s, sep).len() >= 1,
    decreases s.len(),
{
    if s.len() > 0 {
        lemma_split_nonempty(s.drop_last(), sep);
    }
}

/// Every word is non-empty and holds no whitespace.
pub proof fn lemma_words_clean(s: Seq<char>)
    ensures
        forall|i: int|
            0 <= i < words(s).len() ==> (#[trigger] words(s)[i]).len() > 0 && (forall|j: int|
                0 <= j < words(s)[i].len() ==> !is_ws(#[trigger] words(s)[i][j])),
    decreases s.len(),
{
    if s.len() > 0 {
        let p = s.drop_last();
        lemma_words_clean(p);
        let w = words(p);
        let c = s.last();
        if is_ws(c) {
        } else if p.len() > 0 && !is_ws(p.last()) {
            lemma_words_nonempty(p);
            assert forall|i: int| 0 <= i < words(s).len() implies (#[trigger] words(s)[i]).len() > 0
                && (forall|j: int| 0 <= j < words(s)[i].len() ==> !is_ws(#[trigger] words(s)[i][j])) by {
                if i == w.len() - 1 {
                    assert(words(s)[i] == w.last().push(c));
                    assert forall|j: int| 0 <= j < words(s)[i].len() implies !is_ws(
                        #[trigger] words(s)[i][j],
                    ) by {
                        if j < w.last().len() {
                            assert(words(s)[i][j] == w[w.len() - 1][j]);
                        }
                    }
                } else {
                    assert(words(s)[i] == w[i]);
                }
            }
        } else {
            assert forall|i: int| 0 <= i < words(s).len() implies (#[trigger] words(s)[i]).len() > 0
                && (forall|j: int| 0 <= j < words(s)[i].len() ==> !is_ws(#[trigger] words(s)[i][j])) by {
                if i < w.len() {
                    assert(words(s)[i] == w[i]);
                } else {
                    assert(words(s)[i] == seq![c]);
                }
            }
        }
    }
}

/// A non-empty text without whitespace is a single word: searching for one
/// word searches for exactly that word.
pub proof fn lemma_words_single(s: Seq<char>)
    requires
        s.len() > 0,
        forall|i: int| 0 <= i < s.len() ==> !is_ws(#[trigger] s[i]),
    ensures
        words(s) == seq![s],
    decreases s.len(),
{
    let p = s.drop_last();
    if p.len() > 0 {
        assert forall|i: int| 0 <= i < p.len() implies !is_ws(#[trigger] p[i]) by {
            assert(p[i] == s[i]);
        }
        lemma_words_single(p);
        assert(!is_ws(p.last())) by {
            assert(p.last() == s[p.len() - 1]);
        }
        assert(words(s) =~= seq![p.push(s.last())]);
        assert(p.push(s.last()) =~= s);
    } else {
        assert(!is_ws(s.last())) by {
            assert(s.last() == s[s.len() - 1]);
        }
        assert(words(p) =~= seq![]);
        assert(seq![s.last()] =~= s);
    }
}

/// No printable ASCII character except the space is whitespace: letters,
/// digits, hyphens and other punctuation stay inside words. Space, tab,
/// line feed and carriage return are whitespace.
pub proof fn lemma_printable_ascii_not_ws(c: char)
    ensures
        0x21 <= c as u32 <= 0x7E ==> !is_ws(c),
        is_ws(' '),
        is_ws('\t'),
        is_ws('\n'),
        is_ws('\r'),
{
}

/// A text of printable ASCII characters other than the space is a single
/// word: "t-shirt" is searched as "t-shirt".
pub proof fn lemma_printable_word_single(s: Seq<char>)
    requires
        s.len() > 0,
        forall|i: int| 0 <= i < s.len() ==> 0x21 <= (#[trigger] s[i]) as u32 <= 0x7E,
    ensures
        words(s) == seq![s],
        join(words(s), seq!['|']) == s,
{
    assert forall|i: int| 0 <= i < s.len() implies !is_ws(#[trigger] s[i]) by {
        lemma_printable_ascii_not_ws(s[i]);
    }
    lemma_words_single(s);
}

} // verus!
