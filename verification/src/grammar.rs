//! The grammar shared by the vector strings of every CVSS version: tokens
//! separated by `/`, each metric token an axis code, a colon and a level code.

use crate::errors::CVSSError;
use vstd::prelude::*;
use vstd::string::*;

verus! {

/// The character between two tokens of a vector string.
pub open spec fn separator() -> char {
    '/'
}

/// The character between the axis code and the level code of a metric token.
pub open spec fn colon() -> char {
    ':'
}

/// A plain character is an ASCII character other than the separator and the
/// colon.
pub open spec fn is_plain_char(c: char) -> bool {
    '\0' <= c <= '\u{7f}' && c != separator() && c != colon()
}

/// An ASCII character other than the separator.
pub open spec fn is_ascii_unbroken(c: char) -> bool {
    '\0' <= c <= '\u{7f}' && c != separator()
}

/// A code is plain when all its characters are.
pub open spec fn is_plain(code: Seq<char>) -> bool {
    forall|i: int| 0 <= i < code.len() ==> is_plain_char(#[trigger] code[i])
}

/// The length of a code and its first three characters, a blank standing for
/// a character that the code does not have. Equal codes have equal shapes.
pub open spec fn shape(code: Seq<char>) -> (nat, char, char, char) {
    (
        code.len(),
        if code.len() > 0 { code[0] } else { ' ' },
        if code.len() > 1 { code[1] } else { ' ' },
        if code.len() > 2 { code[2] } else { ' ' },
    )
}

/// One rating on one axis of a CVSS version.
///
/// The axis is the metric's identity: a vector holds at most one metric per
/// axis, in the order of the axes. The level decides the weight.
pub trait Metric: Sized + Copy {
    /// The position of the metric's axis in the canonical order.
    spec fn axis(self) -> nat;

    /// The number of axes of this CVSS version.
    spec fn axes() -> nat;

    /// Every vector holds the axes below this number.
    spec fn mandatory() -> nat;

    /// Whether a vector string can name this level of this axis.
    spec fn in_grammar(self) -> bool;

    /// The code of the axis, as a vector string writes it.
    spec fn axis_code(self) -> Seq<char>;

    /// The code of the level, as a vector string writes it.
    spec fn level_code(self) -> Seq<char>;

    proof fn lemma_axes()
        ensures
            Self::mandatory() <= Self::axes(),
    ;

    proof fn lemma_axis_in_range(self)
        ensures
            self.axis() < Self::axes(),
    ;

    proof fn lemma_codes_plain(self)
        ensures
            is_plain(self.axis_code()),
            is_plain(self.level_code()),
    ;

    proof fn lemma_codes_injective(self, other: Self)
        requires
            self.axis_code() == other.axis_code(),
            self.level_code() == other.level_code(),
        ensures
            self == other,
    ;

    fn axis_index(&self) -> (i: usize)
        ensures
            i == self.axis(),
    ;

    fn axis_count() -> (n: usize)
        ensures
            n == Self::axes(),
    ;

    fn mandatory_count() -> (n: usize)
        ensures
            n == Self::mandatory(),
    ;

    fn axis_str(&self) -> (s: &'static str)
        ensures
            s@ == self.axis_code(),
    ;

    fn level_str(&self) -> (s: &'static str)
        ensures
            s@ == self.level_code(),
    ;

    /// The position of the axis that the code names.
    fn axis_of_code(code: &str) -> (r: Option<usize>)
        ensures
            match r {
                Some(a) => a < Self::axes() && forall|m: Self|
                    m.axis() == a <==> #[trigger] m.axis_code() == code@,
                None => forall|m: Self| #[trigger] m.axis_code() != code@,
            },
    ;

    /// The metric of the given axis whose level the code names, if a vector
    /// string can name one so.
    fn with_level(axis: usize, code: &str) -> (r: Option<Self>)
        requires
            axis < Self::axes(),
        ensures
            match r {
                Some(m) => m.axis() == axis && m.in_grammar() && m.level_code() == code@,
                None => forall|m: Self|
                    m.axis() == axis && m.in_grammar() ==> #[trigger] m.level_code() != code@,
            },
    ;
}

/// The text of a metric in a vector string: axis code, colon, level code.
pub open spec fn token<M: Metric>(m: M) -> Seq<char> {
    m.axis_code() + seq![colon()] + m.level_code()
}

/// Whether `text` is the token of the metric `m`, and a vector string can
/// name `m`.
pub open spec fn names<M: Metric>(text: Seq<char>, m: M) -> bool {
    m.in_grammar() && token(m) == text
}

/// The metric that a token names, if it names one.
pub open spec fn decode_spec<M: Metric>(text: Seq<char>) -> Option<M> {
    if exists|m: M| names(text, m) {
        Some(choose|m: M| names(text, m))
    } else {
        None
    }
}

/// The colon of a metric's token stands right behind the axis code: what
/// precedes the first colon is the axis code, what follows it the level code.
pub proof fn lemma_token_parts<M: Metric>(m: M, text: Seq<char>, p: int)
    requires
        token(m) == text,
        0 <= p <= text.len(),
        forall|i: int| 0 <= i < p ==> text[i] != colon(),
        p < text.len() ==> text[p] == colon(),
    ensures
        p < text.len(),
        m.axis_code() == text.subrange(0, p),
        m.level_code() == text.subrange(p + 1, text.len() as int),
{
    m.lemma_codes_plain();
    let n = m.axis_code().len() as int;
    assert(text[n] == colon());
    if p < n {
        assert(text[p] == m.axis_code()[p]);
    }
    assert(p == n);
    assert(m.axis_code() =~= text.subrange(0, p));
    assert(m.level_code() =~= text.subrange(p + 1, text.len() as int));
}

/// Two metrics with the same token are the same metric.
pub proof fn lemma_token_injective<M: Metric>(a: M, b: M)
    requires
        token(a) == token(b),
    ensures
        a == b,
{
    a.lemma_codes_plain();
    let text = token(a);
    let p = a.axis_code().len() as int;
    assert(text[p] == colon());
    assert forall|i: int| 0 <= i < p implies text[i] != colon() by {
        assert(text[i] == a.axis_code()[i]);
    }
    lemma_token_parts(a, text, p);
    lemma_token_parts(b, text, p);
    a.lemma_codes_injective(b);
}

/// A metric that a vector string can name is what its token decodes to.
pub proof fn lemma_decode_token<M: Metric>(m: M)
    requires
        m.in_grammar(),
    ensures
        decode_spec::<M>(token(m)) == Some(m),
{
    assert(names(token(m), m));
    let c = choose|c: M| names(token(m), c);
    lemma_token_injective(c, m);
}

/// The metric that a token names, if it names one.
pub fn decode<M: Metric>(word: &str) -> (r: Option<M>)
    ensures
        r == decode_spec::<M>(word@),
{
    let ghost text = word@;
    if !word.is_ascii() {
        proof {
            if decode_spec::<M>(text) is Some {
                lemma_named_is_ascii::<M>(text);
            }
        }
        return None;
    }
    let end = word.as_bytes().len();
    proof {
        is_ascii_spec_bytes(word);
    }
    let p = find(word, 0, end, 58u8);
    assert(58u8 as char == colon());
    if p == end {
        proof {
            assert forall|m: M| !names(text, m) by {
                if names(text, m) {
                    lemma_token_parts(m, text, p as int);
                }
            }
        }
        return None;
    }
    let head = word.substring_ascii(0, p);
    let tail = word.substring_ascii(p + 1, end);
    match M::axis_of_code(head) {
        None => {
            proof {
                assert forall|m: M| !names(text, m) by {
                    if names(text, m) {
                        lemma_token_parts(m, text, p as int);
                    }
                }
            }
            None
        },
        Some(axis) => match M::with_level(axis, tail) {
            None => {
                proof {
                    assert forall|m: M| !names(text, m) by {
                        if names(text, m) {
                            lemma_token_parts(m, text, p as int);
                        }
                    }
                }
                None
            },
            Some(m) => {
                proof {
                    assert(token(m) =~= text);
                    assert(names(text, m));
                    lemma_decode_token(m);
                }
                Some(m)
            },
        },
    }
}

/// The tokens of a text: the pieces that its separators part, in order. A
/// text with n separators has n + 1 tokens, some of them possibly empty.
pub open spec fn split(text: Seq<char>) -> Seq<Seq<char>>
    decreases text.len(),
{
    if text.len() == 0 {
        seq![Seq::empty()]
    } else {
        let before = split(text.drop_last());
        if text.last() == separator() {
            before.push(Seq::empty())
        } else {
            before.drop_last().push(before.last().push(text.last()))
        }
    }
}

/// The text made of the given tokens with a separator between each two.
pub open spec fn join(tokens: Seq<Seq<char>>) -> Seq<char>
    decreases tokens.len(),
{
    if tokens.len() == 0 {
        Seq::empty()
    } else if tokens.len() == 1 {
        tokens[0]
    } else {
        join(tokens.drop_last()) + seq![separator()] + tokens.last()
    }
}

/// Whether no character of the token is the separator.
pub open spec fn is_unbroken(token: Seq<char>) -> bool {
    forall|i: int| 0 <= i < token.len() ==> #[trigger] token[i] != separator()
}

/// Every text has at least one token.
pub proof fn lemma_split_nonempty(text: Seq<char>)
    ensures
        split(text).len() >= 1,
    decreases text.len(),
{
    if text.len() > 0 {
        lemma_split_nonempty(text.drop_last());
    }
}

/// Characters other than the separator, added to a text, lengthen its last
/// token.
pub proof fn lemma_split_more(text: Seq<char>, more: Seq<char>)
    requires
        is_unbroken(more),
    ensures
        split(text).len() >= 1,
        split(text + more) == split(text).drop_last().push(split(text).last() + more),
    decreases more.len(),
{
    lemma_split_nonempty(text);
    if more.len() == 0 {
        assert(text + more =~= text);
        assert(split(text).last() + more =~= split(text).last());
        assert(split(text).drop_last().push(split(text).last()) =~= split(text));
    } else {
        let shorter = more.drop_last();
        lemma_split_more(text, shorter);
        assert((text + more).drop_last() =~= text + shorter);
        assert((text + more).last() == more.last());
        let before = split(text + shorter);
        assert(before.drop_last() =~= split(text).drop_last());
        assert(before.last().push(more.last()) =~= split(text).last() + more);
    }
}

/// A separator added to a text opens a new, empty token.
pub proof fn lemma_split_separator(text: Seq<char>)
    ensures
        split(text.push(separator())) == split(text).push(Seq::empty()),
{
    assert(text.push(separator()).drop_last() =~= text);
}

/// Splitting undoes joining: a text joined from tokens that hold no
/// separator splits into those tokens.
pub proof fn lemma_split_join(tokens: Seq<Seq<char>>)
    requires
        tokens.len() >= 1,
        forall|i: int| 0 <= i < tokens.len() ==> is_unbroken(#[trigger] tokens[i]),
    ensures
        split(join(tokens)) == tokens,
    decreases tokens.len(),
{
    if tokens.len() == 1 {
        lemma_split_more(Seq::empty(), tokens[0]);
        assert(Seq::<char>::empty() + tokens[0] =~= tokens[0]);
        assert(split(Seq::<char>::empty()) =~= seq![Seq::<char>::empty()]);
        assert(split(join(tokens)) =~= tokens);
    } else {
        let front = tokens.drop_last();
        lemma_split_join(front);
        let opened = join(front).push(separator());
        lemma_split_separator(join(front));
        lemma_split_more(opened, tokens.last());
        assert(join(tokens) =~= opened + tokens.last());
        assert(Seq::<char>::empty() + tokens.last() =~= tokens.last());
        assert(split(join(tokens)) =~= tokens);
    }
}

/// Joining undoes splitting: the tokens of a text hold no separator, and
/// joined they give the text.
pub proof fn lemma_join_split(text: Seq<char>)
    ensures
        join(split(text)) == text,
        forall|k: int| 0 <= k < split(text).len() ==> is_unbroken(#[trigger] split(text)[k]),
    decreases text.len(),
{
    let tokens = split(text);
    if text.len() == 0 {
        assert(tokens.len() == 1 && tokens[0] =~= Seq::<char>::empty());
        assert(join(tokens) =~= text);
    } else {
        let shorter = text.drop_last();
        let before = split(shorter);
        lemma_join_split(shorter);
        lemma_split_nonempty(shorter);
        let last = before.len() - 1;
        if text.last() == separator() {
            assert(tokens.drop_last() =~= before);
            assert(join(tokens) =~= join(before) + seq![separator()] + Seq::<char>::empty());
            assert(join(tokens) =~= text);
            assert forall|k: int| 0 <= k < tokens.len() implies is_unbroken(
                #[trigger] tokens[k],
            ) by {
                if k <= last {
                    assert(tokens[k] == before[k]);
                }
            }
        } else {
            let grown = before[last].push(text.last());
            assert(tokens[last] == grown);
            assert(tokens.drop_last() =~= before.drop_last());
            if before.len() == 1 {
                assert(join(before) == before[0]);
                assert(join(tokens) == tokens[0]);
            } else {
                assert(join(before) == join(before.drop_last()) + seq![separator()]
                    + before[last]);
                assert(join(tokens) == join(tokens.drop_last()) + seq![separator()] + grown);
            }
            assert(join(tokens) =~= join(before).push(text.last()));
            assert(join(tokens) =~= text);
            assert forall|k: int| 0 <= k < tokens.len() implies is_unbroken(
                #[trigger] tokens[k],
            ) by {
                if k < last {
                    assert(tokens[k] == before[k]);
                } else {
                    assert(is_unbroken(before[last]));
                    assert forall|i: int| 0 <= i < grown.len() implies #[trigger] grown[i]
                        != separator() by {
                        if i < before[last].len() {
                            assert(grown[i] == before[last][i]);
                        }
                    }
                }
            }
        }
    }
}

/// The pieces of `text` that the given pairs of a start and an end cut out.
pub open spec fn pieces(text: Seq<char>, ranges: Seq<(usize, usize)>) -> Seq<Seq<char>> {
    Seq::new(ranges.len(), |k: int| text.subrange(ranges[k].0 as int, ranges[k].1 as int))
}

/// Whether the pairs of a start and an end lie within `text`.
pub open spec fn in_bounds(text: Seq<char>, ranges: Seq<(usize, usize)>) -> bool {
    forall|k: int|
        0 <= k < ranges.len() ==> (#[trigger] ranges[k]).0 <= ranges[k].1 <= text.len()
}

/// Where each token of `s` starts and ends.
pub(crate) fn tokenize(s: &str) -> (ranges: Vec<(usize, usize)>)
    requires
        s.is_ascii(),
    ensures
        in_bounds(s@, ranges@),
        pieces(s@, ranges@) == split(s@),
{
    broadcast use {is_ascii_spec_bytes, vstd::utf8::group_utf8_lib};

    let n = s.as_bytes().len();
    let mut ranges: Vec<(usize, usize)> = Vec::new();
    let mut start: usize = 0;
    assert(s@.take(0) =~= Seq::<char>::empty());
    assert(pieces(s@, ranges@).push(Seq::empty()) =~= split(s@.take(0)));
    loop
        invariant_except_break
            start <= n,
            split(s@.take(start as int)) == pieces(s@, ranges@).push(Seq::empty()),
        invariant
            s.is_ascii(),
            n == s@.len(),
            in_bounds(s@, ranges@),
        ensures
            in_bounds(s@, ranges@),
            pieces(s@, ranges@) == split(s@),
        decreases n - start,
    {
        let end = find(s, start, n, 47u8);
        assert(47u8 as char == separator());
        let ghost done = pieces(s@, ranges@);
        let ghost piece = s@.subrange(start as int, end as int);
        proof {
            lemma_split_more(s@.take(start as int), piece);
            assert(s@.take(start as int) + piece =~= s@.take(end as int));
            assert(Seq::<char>::empty() + piece =~= piece);
            assert(done.push(Seq::empty()).drop_last() =~= done);
        }
        ranges.push((start, end));
        assert(pieces(s@, ranges@) =~= done.push(piece));
        if end == n {
            assert(s@.take(end as int) =~= s@);
            break ;
        }
        proof {
            lemma_split_separator(s@.take(end as int));
            assert(s@.take(end as int).push(separator()) =~= s@.take(end + 1));
        }
        start = end + 1;
    }
    ranges
}

/// Whether every token names a metric.
pub open spec fn is_grammatical<M: Metric>(tokens: Seq<Seq<char>>) -> bool {
    forall|i: int| 0 <= i < tokens.len() ==> (#[trigger] decode_spec::<M>(tokens[i])) is Some
}

/// Whether the token at `i` names a metric of the given axis.
pub open spec fn rates<M: Metric>(tokens: Seq<Seq<char>>, i: int, axis: nat) -> bool {
    &&& 0 <= i < tokens.len()
    &&& decode_spec::<M>(tokens[i]) is Some
    &&& decode_spec::<M>(tokens[i])->0.axis() == axis
}

/// Whether two tokens name metrics of one axis.
pub open spec fn has_repeat<M: Metric>(tokens: Seq<Seq<char>>) -> bool {
    exists|i: int, j: int, axis: nat|
        i < j && #[trigger] rates::<M>(tokens, i, axis) && #[trigger] rates::<M>(tokens, j, axis)
}

/// Whether some token names a metric of the given axis.
pub open spec fn is_rated<M: Metric>(tokens: Seq<Seq<char>>, axis: nat) -> bool {
    exists|i: int| #[trigger] rates::<M>(tokens, i, axis)
}

/// Whether every mandatory axis is rated.
pub open spec fn is_complete<M: Metric>(tokens: Seq<Seq<char>>) -> bool {
    forall|axis: nat| axis < M::mandatory() ==> #[trigger] is_rated::<M>(tokens, axis)
}

/// Whether the token at `i` names the metric `m`.
pub open spec fn names_at<M: Metric>(tokens: Seq<Seq<char>>, i: int, m: M) -> bool {
    0 <= i < tokens.len() && decode_spec::<M>(tokens[i]) == Some(m)
}

/// Whether some token names the metric `m`.
pub open spec fn is_named<M: Metric>(tokens: Seq<Seq<char>>, m: M) -> bool {
    exists|i: int| #[trigger] names_at(tokens, i, m)
}

/// A sequence of metrics is canonical when it goes up by axis: it holds at
/// most one metric per axis, in the order of the axes.
pub open spec fn is_canonical<M: Metric>(v: Seq<M>) -> bool {
    forall|i: int, j: int|
        0 <= i < j < v.len() ==> (#[trigger] v[i]).axis() < (#[trigger] v[j]).axis()
}

/// Whether `v` holds exactly the metrics that the tokens name.
pub open spec fn holds_named<M: Metric>(tokens: Seq<Seq<char>>, v: Seq<M>) -> bool {
    forall|m: M| #[trigger] v.contains(m) <==> is_named(tokens, m)
}

/// What the metric tokens of a vector string stand for. A token that names
/// no metric makes the whole a parsing error. Failing that, two tokens of
/// one axis make it a duplicate. Failing that, a mandatory axis that no token
/// rates makes it a parsing error. Otherwise the tokens stand for the
/// canonical sequence of the metrics that they name.
pub open spec fn collects<M: Metric>(
    tokens: Seq<Seq<char>>,
    r: Result<Seq<M>, CVSSError>,
) -> bool {
    if !is_grammatical::<M>(tokens) {
        r == Err::<Seq<M>, CVSSError>(CVSSError::ParsingError)
    } else if has_repeat::<M>(tokens) {
        r == Err::<Seq<M>, CVSSError>(CVSSError::DuplicateMetrics)
    } else if !is_complete::<M>(tokens) {
        r == Err::<Seq<M>, CVSSError>(CVSSError::ParsingError)
    } else {
        r matches Ok(v) && is_canonical(v) && holds_named(tokens, v)
    }
}

/// A result with the vector taken by its view.
pub open spec fn viewed<M>(r: Result<Vec<M>, CVSSError>) -> Result<Seq<M>, CVSSError> {
    match r {
        Ok(v) => Ok(v@),
        Err(e) => Err(e),
    }
}

/// What the slots hold once the given tokens are read: the slot of an axis
/// holds the first metric of that axis that a token names.
pub open spec fn slots_hold<M: Metric>(tokens: Seq<Seq<char>>, slots: Seq<Option<M>>) -> bool {
    &&& slots.len() == M::axes()
    &&& forall|axis: int|
        0 <= axis < slots.len() && (#[trigger] slots[axis]) is Some ==> slots[axis]->0.axis()
            == axis && is_named(tokens, slots[axis]->0)
    &&& forall|i: int, axis: nat|
        #[trigger] rates::<M>(tokens, i, axis) ==> axis < slots.len() && slots[axis as int] is Some
}

/// The metrics that the tokens of `s` from the token `from` on name, in
/// canonical order.
pub(crate) fn collect<M: Metric>(s: &str, ranges: &Vec<(usize, usize)>, from: usize) -> (r: Result<
    Vec<M>,
    CVSSError,
>)
    requires
        s.is_ascii(),
        in_bounds(s@, ranges@),
        from <= ranges@.len(),
    ensures
        collects::<M>(pieces(s@, ranges@).skip(from as int), viewed(r)),
{
    let ghost tokens = pieces(s@, ranges@).skip(from as int);
    let axes = M::axis_count();
    let mut slots: Vec<Option<M>> = Vec::new();
    let mut axis: usize = 0;
    while axis < axes
        invariant
            axis <= axes,
            slots@.len() == axis,
            forall|a: int| 0 <= a < axis ==> (#[trigger] slots@[a]) is None,
        decreases axes - axis,
    {
        slots.push(None);
        axis += 1;
    }
    let mut grammatical = true;
    let mut repeat = false;
    let mut k: usize = from;
    assert(slots_hold::<M>(tokens.take(0), slots@));
    while k < ranges.len()
        invariant
            s.is_ascii(),
            in_bounds(s@, ranges@),
            from <= k <= ranges@.len(),
            tokens == pieces(s@, ranges@).skip(from as int),
            grammatical == is_grammatical::<M>(tokens.take(k - from)),
            repeat == has_repeat::<M>(tokens.take(k - from)),
            slots_hold::<M>(tokens.take(k - from), slots@),
        decreases ranges@.len() - k,
    {
        let range = ranges[k];
        let ghost n = k - from;
        let ghost seen = tokens.take(n);
        let ghost next = tokens.take(n + 1);
        let ghost token = s@.subrange(range.0 as int, range.1 as int);
        assert(token == tokens[n]);
        assert(next[n] == token);
        assert(forall|i: int| 0 <= i < n ==> next[i] == seen[i]);
        let found = decode::<M>(s.substring_ascii(range.0, range.1));
        proof {
            assert(is_grammatical::<M>(next) == (is_grammatical::<M>(seen) && found is Some)) by {
                if is_grammatical::<M>(next) {
                    assert(decode_spec::<M>(next[n]) is Some);
                    assert forall|i: int| 0 <= i < seen.len() implies (#[trigger] decode_spec::<M>(
                        seen[i],
                    )) is Some by {
                        assert(decode_spec::<M>(next[i]) is Some);
                    }
                }
            }
            assert forall|i: int, axis: nat| i < n implies rates::<M>(next, i, axis) == rates::<M>(
                seen,
                i,
                axis,
            ) by {}
            assert forall|i: int, m: M| i < n implies names_at(next, i, m) == names_at(
                seen,
                i,
                m,
            ) by {}
        }
        match found {
            None => {
                grammatical = false;
                proof {
                    assert forall|i: int, axis: nat| rates::<M>(next, i, axis) implies rates::<M>(
                        seen,
                        i,
                        axis,
                    ) by {}
                    lemma_reading_on::<M>(seen, next, slots@, slots@);
                }
            },
            Some(m) => {
                proof {
                    m.lemma_axis_in_range();
                }
                let axis = m.axis_index();
                let ghost before = slots@;
                assert(rates::<M>(next, n as int, axis as nat));
                assert(names_at(next, n as int, m));
                if slots[axis].is_some() {
                    repeat = true;
                    proof {
                        let first = before[axis as int]->0;
                        let i = choose|i: int| names_at(seen, i, first);
                        assert(rates::<M>(next, i, axis as nat));
                        lemma_reading_on::<M>(seen, next, before, slots@);
                    }
                } else {
                    slots.set(axis, Some(m));
                    proof {
                        assert(has_repeat::<M>(next) == has_repeat::<M>(seen)) by {
                            if has_repeat::<M>(next) {
                                let (i, j, a) = choose|i: int, j: int, a: nat|
                                    i < j && #[trigger] rates::<M>(next, i, a) && #[trigger] rates::<M>(
                                        next,
                                        j,
                                        a,
                                    );
                                if j == n {
                                    assert(rates::<M>(seen, i, a));
                                } else {
                                    assert(rates::<M>(seen, i, a) && rates::<M>(seen, j, a));
                                }
                            }
                            if has_repeat::<M>(seen) {
                                let (i, j, a) = choose|i: int, j: int, a: nat|
                                    i < j && #[trigger] rates::<M>(seen, i, a) && #[trigger] rates::<M>(
                                        seen,
                                        j,
                                        a,
                                    );
                                assert(rates::<M>(next, i, a) && rates::<M>(next, j, a));
                            }
                        }
                        lemma_reading_on::<M>(seen, next, before, slots@);
                    }
                }
            },
        }
        k += 1;
    }
    assert(tokens.take(k - from) =~= tokens);
    if !grammatical {
        return Err(CVSSError::ParsingError);
    }
    if repeat {
        return Err(CVSSError::DuplicateMetrics);
    }
    let mandatory = M::mandatory_count();
    proof {
        M::lemma_axes();
    }
    let mut axis: usize = 0;
    while axis < mandatory
        invariant
            axis <= mandatory == M::mandatory() <= M::axes(),
            tokens == pieces(s@, ranges@).skip(from as int),
            is_grammatical::<M>(tokens),
            !has_repeat::<M>(tokens),
            slots_hold::<M>(tokens, slots@),
            forall|a: nat| a < axis ==> #[trigger] is_rated::<M>(tokens, a),
        decreases mandatory - axis,
    {
        match slots[axis] {
            None => {
                assert(!is_rated::<M>(tokens, axis as nat));
                return Err(CVSSError::ParsingError);
            },
            Some(m) => {
                proof {
                    let i = choose|i: int| names_at(tokens, i, m);
                    assert(rates::<M>(tokens, i, axis as nat));
                }
            },
        }
        axis += 1;
    }
    let mut v: Vec<M> = Vec::new();
    let mut axis: usize = 0;
    while axis < axes
        invariant
            axis <= axes == M::axes(),
            slots_hold::<M>(tokens, slots@),
            is_canonical(v@),
            forall|j: int| 0 <= j < v@.len() ==> (#[trigger] v@[j]).axis() < axis,
            forall|m: M| #[trigger]
                v@.contains(m) <==> m.axis() < axis && slots@[m.axis() as int] == Some(m),
        decreases axes - axis,
    {
        match slots[axis] {
            None => {},
            Some(m) => {
                let ghost before = v@;
                v.push(m);
                proof {
                    assert(v@[before.len() as int] == m);
                    assert forall|x: M| #[trigger]
                        v@.contains(x) <==> x.axis() < axis + 1 && slots@[x.axis() as int] == Some(
                            x,
                        ) by {
                        if v@.contains(x) {
                            let j = choose|j: int| 0 <= j < v@.len() && v@[j] == x;
                            if j < before.len() {
                                assert(before[j] == x);
                                assert(before.contains(x));
                            }
                        }
                        if before.contains(x) {
                            let j = choose|j: int| 0 <= j < before.len() && before[j] == x;
                            assert(v@[j] == x);
                        }
                    }
                }
            },
        }
        axis += 1;
    }
    proof {
        assert forall|m: M| #[trigger] v@.contains(m) <==> is_named(tokens, m) by {
            m.lemma_axis_in_range();
            if is_named(tokens, m) {
                let i = choose|i: int| names_at(tokens, i, m);
                assert(rates::<M>(tokens, i, m.axis()));
                let first = slots@[m.axis() as int]->0;
                let j = choose|j: int| names_at(tokens, j, first);
                assert(rates::<M>(tokens, j, m.axis()));
                assert(i == j);
            }
        }
    }
    Ok(v)
}

/// Reading one more token keeps the slots right, whether the token names no
/// metric, or a metric of an axis whose slot is filled, or one that has just
/// filled its slot.
proof fn lemma_reading_on<M: Metric>(
    seen: Seq<Seq<char>>,
    next: Seq<Seq<char>>,
    before: Seq<Option<M>>,
    after: Seq<Option<M>>,
)
    requires
        slots_hold::<M>(seen, before),
        next.len() == seen.len() + 1,
        forall|i: int| 0 <= i < seen.len() ==> next[i] == seen[i],
        after.len() == before.len(),
        match decode_spec::<M>(next[seen.len() as int]) {
            None => after == before,
            Some(m) => m.axis() < before.len() && if before[m.axis() as int] is Some {
                after == before
            } else {
                after == before.update(m.axis() as int, Some(m))
            },
        },
    ensures
        slots_hold::<M>(next, after),
{
    let n = seen.len() as int;
    assert forall|i: int, m: M| names_at(seen, i, m) implies names_at(next, i, m) by {}
    assert forall|axis: int| 0 <= axis < after.len() && (#[trigger] after[axis]) is Some implies after[axis]->0.axis()
        == axis && is_named(next, after[axis]->0) by {
        let m = after[axis]->0;
        if before[axis] is Some {
            let i = choose|i: int| names_at(seen, i, m);
            assert(names_at(next, i, m));
        } else {
            assert(names_at(next, n, m));
        }
    }
    assert forall|i: int, axis: nat| #[trigger] rates::<M>(next, i, axis) implies axis
        < after.len() && after[axis as int] is Some by {
        if i < n {
            assert(rates::<M>(seen, i, axis));
        }
    }
}

/// The tokens of the metrics of `v`, in order.
pub open spec fn tokens_of<M: Metric>(v: Seq<M>) -> Seq<Seq<char>> {
    Seq::new(v.len(), |i: int| token(v[i]))
}

/// Whether `v` holds a metric of the given axis.
pub open spec fn has_axis<M: Metric>(v: Seq<M>, axis: nat) -> bool {
    exists|i: int| 0 <= i < v.len() && (#[trigger] v[i]).axis() == axis
}

/// A vector is a canonical sequence of metrics that a vector string can
/// name, with a metric of every mandatory axis.
pub open spec fn is_vector<M: Metric>(v: Seq<M>) -> bool {
    &&& is_canonical(v)
    &&& forall|i: int| 0 <= i < v.len() ==> (#[trigger] v[i]).in_grammar()
    &&& forall|axis: nat| axis < M::mandatory() ==> #[trigger] has_axis(v, axis)
}

/// Two canonical sequences that hold the same metrics are equal.
pub proof fn lemma_canonical_unique<M: Metric>(a: Seq<M>, b: Seq<M>)
    requires
        is_canonical(a),
        is_canonical(b),
        forall|m: M| a.contains(m) <==> b.contains(m),
    ensures
        a == b,
    decreases a.len(),
{
    if a.len() == 0 {
        if b.len() > 0 {
            assert(b.contains(b[0]));
        }
        assert(a =~= b);
    } else {
        assert(a.contains(a[0]));
        let j = choose|j: int| 0 <= j < b.len() && b[j] == a[0];
        assert(b.contains(b[0]));
        let i = choose|i: int| 0 <= i < a.len() && a[i] == b[0];
        assert(i == 0 && j == 0);
        let ta = a.drop_first();
        let tb = b.drop_first();
        assert forall|m: M| ta.contains(m) <==> tb.contains(m) by {
            if ta.contains(m) {
                let k = choose|k: int| 0 <= k < ta.len() && ta[k] == m;
                assert(a[k + 1] == m);
                assert(a.contains(m));
                let l = choose|l: int| 0 <= l < b.len() && b[l] == m;
                assert(l != 0);
                assert(tb[l - 1] == m);
            }
            if tb.contains(m) {
                let k = choose|k: int| 0 <= k < tb.len() && tb[k] == m;
                assert(b[k + 1] == m);
                assert(b.contains(m));
                let l = choose|l: int| 0 <= l < a.len() && a[l] == m;
                assert(l != 0);
                assert(ta[l - 1] == m);
            }
        }
        assert forall|x: int, y: int| 0 <= x < y < ta.len() implies (#[trigger] ta[x]).axis() < (
        #[trigger] ta[y]).axis() by {
            assert(a[x + 1].axis() < a[y + 1].axis());
        }
        assert forall|x: int, y: int| 0 <= x < y < tb.len() implies (#[trigger] tb[x]).axis() < (
        #[trigger] tb[y]).axis() by {
            assert(b[x + 1].axis() < b[y + 1].axis());
        }
        lemma_canonical_unique(ta, tb);
        assert(a =~= seq![a[0]] + ta);
        assert(b =~= seq![b[0]] + tb);
    }
}

/// The metric tokens of a vector string stand for one thing only.
pub proof fn lemma_collects_unique<M: Metric>(
    tokens: Seq<Seq<char>>,
    a: Result<Seq<M>, CVSSError>,
    b: Result<Seq<M>, CVSSError>,
)
    requires
        collects(tokens, a),
        collects(tokens, b),
    ensures
        a == b,
{
    if is_grammatical::<M>(tokens) && !has_repeat::<M>(tokens) && is_complete::<M>(tokens) {
        lemma_canonical_unique(a->Ok_0, b->Ok_0);
    }
}

/// The tokens of a vector stand for that vector.
pub proof fn lemma_collects_vector<M: Metric>(v: Seq<M>)
    requires
        is_vector(v),
    ensures
        collects(tokens_of(v), Ok::<Seq<M>, CVSSError>(v)),
{
    let tokens = tokens_of(v);
    assert forall|i: int| 0 <= i < tokens.len() implies #[trigger] decode_spec::<M>(tokens[i])
        == Some(v[i]) by {
        lemma_decode_token(v[i]);
    }
    assert(is_grammatical::<M>(tokens));
    assert(!has_repeat::<M>(tokens)) by {
        if has_repeat::<M>(tokens) {
            let (i, j, axis) = choose|i: int, j: int, axis: nat|
                i < j && #[trigger] rates::<M>(tokens, i, axis) && #[trigger] rates::<M>(
                    tokens,
                    j,
                    axis,
                );
            assert(v[i].axis() < v[j].axis());
        }
    }
    assert forall|axis: nat| axis < M::mandatory() implies #[trigger] is_rated::<M>(
        tokens,
        axis,
    ) by {
        assert(has_axis(v, axis));
        let i = choose|i: int| 0 <= i < v.len() && (#[trigger] v[i]).axis() == axis;
        assert(rates::<M>(tokens, i, axis));
    }
    assert forall|m: M| #[trigger] v.contains(m) <==> is_named(tokens, m) by {
        if v.contains(m) {
            let i = choose|i: int| 0 <= i < v.len() && v[i] == m;
            assert(names_at(tokens, i, m));
        }
        if is_named(tokens, m) {
            let i = choose|i: int| names_at(tokens, i, m);
            assert(v[i] == m);
        }
    }
}

/// The vector that metric tokens stand for is a vector.
pub proof fn lemma_collected_is_vector<M: Metric>(tokens: Seq<Seq<char>>, v: Seq<M>)
    requires
        collects(tokens, Ok::<Seq<M>, CVSSError>(v)),
    ensures
        is_vector(v),
{
    assert forall|i: int| 0 <= i < v.len() implies (#[trigger] v[i]).in_grammar() by {
        assert(v.contains(v[i]));
        let k = choose|k: int| names_at(tokens, k, v[i]);
        assert(names(tokens[k], v[i]));
    }
    assert forall|axis: nat| axis < M::mandatory() implies #[trigger] has_axis(v, axis) by {
        assert(is_rated::<M>(tokens, axis));
        let k = choose|k: int| rates::<M>(tokens, k, axis);
        let m = decode_spec::<M>(tokens[k])->0;
        assert(names_at(tokens, k, m));
        assert(v.contains(m));
    }
}

/// The token of a metric holds no separator and only ASCII characters.
pub proof fn lemma_token_plain<M: Metric>(m: M)
    ensures
        is_unbroken(token(m)),
        vstd::utf8::is_ascii_chars(token(m)),
{
    m.lemma_codes_plain();
    let text = token(m);
    let n = m.axis_code().len() as int;
    assert forall|i: int| 0 <= i < text.len() implies is_ascii_unbroken(#[trigger] text[i]) by {
        if i < n {
            assert(is_plain_char(m.axis_code()[i]));
        } else if i == n {
            assert(text[i] == colon());
        } else {
            assert(is_plain_char(m.level_code()[i - n - 1]));
        }
    }
}

/// A text whose tokens are all made of ASCII characters is made of ASCII
/// characters.
pub proof fn lemma_ascii_by_tokens(text: Seq<char>)
    requires
        forall|k: int|
            0 <= k < split(text).len() ==> vstd::utf8::is_ascii_chars(#[trigger] split(text)[k]),
    ensures
        vstd::utf8::is_ascii_chars(text),
    decreases text.len(),
{
    if text.len() > 0 {
        let shorter = text.drop_last();
        let before = split(shorter);
        let tokens = split(text);
        lemma_split_nonempty(shorter);
        let last = before.len() - 1;
        assert forall|k: int| 0 <= k < before.len() implies vstd::utf8::is_ascii_chars(
            #[trigger] before[k],
        ) by {
            if text.last() == separator() {
                assert(tokens[k] == before[k]);
            } else if k < last {
                assert(tokens[k] == before[k]);
            } else {
                assert(tokens[last] == before[last].push(text.last()));
                assert forall|i: int| 0 <= i < before[k].len() implies '\0' <= #[trigger] before[k][i]
                    <= '\u{7f}' by {
                    assert(tokens[last][i] == before[k][i]);
                }
            }
        }
        lemma_ascii_by_tokens(shorter);
        if text.last() != separator() {
            assert(tokens[last] == before[last].push(text.last()));
            assert(tokens[last][before[last].len() as int] == text.last());
        }
        assert forall|i: int| 0 <= i < text.len() implies '\0' <= #[trigger] text[i] <= '\u{7f}' by {
            if i < shorter.len() {
                assert(text[i] == shorter[i]);
            }
        }
    }
}

/// A token that names a metric is made of ASCII characters.
pub proof fn lemma_named_is_ascii<M: Metric>(text: Seq<char>)
    requires
        decode_spec::<M>(text) is Some,
    ensures
        vstd::utf8::is_ascii_chars(text),
{
    let m = choose|m: M| names(text, m);
    lemma_token_plain(m);
}

/// Joining a first token to further ones puts a separator between them.
pub proof fn lemma_join_first(first: Seq<char>, rest: Seq<Seq<char>>)
    requires
        rest.len() >= 1,
    ensures
        join(seq![first] + rest) == first + seq![separator()] + join(rest),
    decreases rest.len(),
{
    let all = seq![first] + rest;
    assert(all.drop_last() =~= seq![first] + rest.drop_last());
    assert(all.last() == rest.last());
    if rest.len() == 1 {
        assert(all.drop_last() =~= seq![first]);
        assert(join(seq![first]) == first);
        assert(join(rest) == rest.last());
        assert(join(all) == join(all.drop_last()) + seq![separator()] + all.last());
    } else {
        lemma_join_first(first, rest.drop_last());
        assert(join(all) =~= first + seq![separator()] + join(rest));
    }
}

/// The token of a metric.
pub fn spell<M: Metric>(m: &M) -> (s: String)
    ensures
        s@ == token(*m),
{
    let mut s = String::from_str(m.axis_str());
    s.append(":");
    s.append(m.level_str());
    proof {
        reveal_strlit(":");
        assert(":"@ =~= seq![colon()]);
    }
    s
}

/// The canonical text of a sequence of metrics: their tokens, joined.
pub fn render<M: Metric>(v: &Vec<M>) -> (s: String)
    ensures
        s@ == join(tokens_of(v@)),
{
    let ghost tokens = tokens_of(v@);
    let mut s = String::new();
    let mut i: usize = 0;
    assert(tokens.take(0) =~= Seq::<Seq<char>>::empty());
    while i < v.len()
        invariant
            i <= v@.len(),
            tokens == tokens_of(v@),
            s@ == join(tokens.take(i as int)),
        decreases v@.len() - i,
    {
        let ghost before = s@;
        if i > 0 {
            s.append("/");
        }
        s.append(v[i].axis_str());
        s.append(":");
        s.append(v[i].level_str());
        proof {
            reveal_strlit("/");
            reveal_strlit(":");
            assert("/"@ =~= seq![separator()]);
            assert(":"@ =~= seq![colon()]);
            let next = tokens.take(i + 1);
            assert(next.drop_last() =~= tokens.take(i as int));
            assert(next.last() == token(v@[i as int]));
            if i == 0 {
                assert(before =~= Seq::<char>::empty());
                assert(s@ =~= token(v@[i as int]));
            } else {
                assert(s@ =~= before + seq![separator()] + token(v@[i as int]));
            }
        }
        i += 1;
    }
    assert(tokens.take(i as int) =~= tokens);
    s
}

/// Whether two texts are the same.
pub fn same(a: &str, b: &str) -> (r: bool)
    ensures
        r == (a@ == b@),
{
    broadcast use vstd::utf8::group_utf8_lib;

    let x = a.as_bytes();
    let y = b.as_bytes();
    proof {
        assert(vstd::utf8::decode_utf8(vstd::utf8::encode_utf8(a@)) == a@);
        assert(vstd::utf8::decode_utf8(vstd::utf8::encode_utf8(b@)) == b@);
    }
    if x.len() != y.len() {
        return false;
    }
    let mut i: usize = 0;
    while i < x.len()
        invariant
            i <= x@.len() == y@.len(),
            x@ == vstd::utf8::encode_utf8(a@),
            y@ == vstd::utf8::encode_utf8(b@),
            forall|j: int| 0 <= j < i ==> x@[j] == y@[j],
        decreases x@.len() - i,
    {
        if x[i] != y[i] {
            return false;
        }
        i += 1;
    }
    assert(x@ =~= y@);
    true
}

/// The first position from `start` up to `end` at which `s` holds the
/// character `c`, or `end` where it holds none.
pub(crate) fn find(s: &str, start: usize, end: usize, c: u8) -> (p: usize)
    requires
        s.is_ascii(),
        start <= end <= s@.len(),
        c <= 127,
    ensures
        start <= p <= end,
        forall|i: int| start <= i < p ==> s@[i] != c as char,
        p < end ==> s@[p as int] == c as char,
{
    broadcast use {is_ascii_spec_bytes, vstd::utf8::group_utf8_lib};

    let text = s.as_bytes();
    let mut p: usize = start;
    while p < end
        invariant
            start <= p <= end <= s@.len(),
            s.is_ascii(),
            text@ == s.spec_bytes(),
            c <= 127,
            forall|i: int| start <= i < p ==> s@[i] != c as char,
        decreases end - p,
    {
        if text[p] == c {
            assert(s@[p as int] as u8 == c);
            return p;
        }
        p += 1;
    }
    p
}

} // verus!
