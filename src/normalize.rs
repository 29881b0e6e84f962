use vstd::prelude::*;

verus! {

/// The markup of a mention of the user `id`: `<@id>`.
pub open spec fn mention_token(id: Seq<char>) -> Seq<char> {
    seq!['<', '@'] + id + seq!['>']
}

/// `s[i..]` with every occurrence of `tok` removed, matches taken from left to right.
pub open spec fn strip_from(s: Seq<char>, tok: Seq<char>, i: int) -> Seq<char>
    decreases s.len() - i,
{
    if i >= s.len() {
        Seq::empty()
    } else if tok.len() > 0 && i + tok.len() <= s.len() && s.subrange(i, i + tok.len()) == tok {
        strip_from(s, tok, i + tok.len())
    } else {
        seq![s[i]] + strip_from(s, tok, i + 1)
    }
}

/// Index of the first `c` in `s` at or after `i`, or `s.len()` when there is none.
pub open spec fn find_from(s: Seq<char>, c: char, i: int) -> int
    decreases s.len() - i,
{
    if i >= s.len() {
        s.len() as int
    } else if s[i] == c {
        i
    } else {
        find_from(s, c, i + 1)
    }
}

/// Whether a labelled link `<target|label>` starts at `i`: the target runs up to
/// the first `|`, the label up to the first `>` after it, and both are non-empty.
pub open spec fn decorated_at(s: Seq<char>, i: int) -> bool {
    let p = find_from(s, '|', i + 1);
    let q = find_from(s, '>', p + 1);
    0 <= i < s.len() && s[i] == '<' && i + 1 < p < s.len() && p + 1 < q < s.len()
}

/// `s[i..]` with each labelled link replaced by its label, from left to right.
pub open spec fn decorated_from(s: Seq<char>, i: int) -> Seq<char>
    decreases s.len() - i,
{
    if i >= s.len() {
        Seq::empty()
    } else if decorated_at(s, i) {
        let p = find_from(s, '|', i + 1);
        let q = find_from(s, '>', p + 1);
        s.subrange(p + 1, q) + decorated_from(s, q + 1)
    } else {
        seq![s[i]] + decorated_from(s, i + 1)
    }
}

/// Whether a bracketed token `<target>` with a non-empty target starts at `i`;
/// the target runs up to the first `>`.
pub open spec fn bare_at(s: Seq<char>, i: int) -> bool {
    let q = find_from(s, '>', i + 1);
    0 <= i < s.len() && s[i] == '<' && i + 1 < q < s.len()
}

/// `s[i..]` with each bracketed token replaced by its target, from left to right.
pub open spec fn bare_from(s: Seq<char>, i: int) -> Seq<char>
    decreases s.len() - i,
{
    if i >= s.len() {
        Seq::empty()
    } else if bare_at(s, i) {
        let q = find_from(s, '>', i + 1);
        s.subrange(i + 1, q) + bare_from(s, q + 1)
    } else {
        seq![s[i]] + bare_from(s, i + 1)
    }
}

/// Every mention of the bot removed.
pub open spec fn strip_mentions(s: Seq<char>, bot_id: Seq<char>) -> Seq<char> {
    strip_from(s, mention_token(bot_id), 0)
}

/// Labelled links collapsed to their labels.
pub open spec fn collapse_decorated(s: Seq<char>) -> Seq<char> {
    decorated_from(s, 0)
}

/// Remaining bracketed tokens collapsed to their targets.
pub open spec fn collapse_bare(s: Seq<char>) -> Seq<char> {
    bare_from(s, 0)
}

/// The three markup rewrites, in their fixed order.
pub open spec fn markup_normalized(s: Seq<char>, bot_id: Seq<char>) -> Seq<char> {
    collapse_bare(collapse_decorated(strip_mentions(s, bot_id)))
}

/// Text that holds neither bracket markup nor emoji shorthand.
pub open spec fn is_plain(s: Seq<char>) -> bool {
    !s.contains('<') && !s.contains(':')
}

/// What emoji shorthand expansion makes of a text.
pub uninterp spec fn emoji_expanded(s: Seq<char>) -> Seq<char>;

/// Relies on gh_emoji::Replacer::replace_all, which rewrites each `:name:` of a
/// known emoji to its glyph. Its pattern needs a colon, so a text without one
/// comes back unchanged.
#[verifier::external_body]
fn expand_emoji(s: &str) -> (r: String)
    ensures
        r@ == emoji_expanded(s@),
        !s@.contains(':') ==> r@ == s@,
{
    gh_emoji::Replacer::new().replace_all(s).into_owned()
}

fn find_char(s: &str, n: usize, c: char, i: usize) -> (r: usize)
    requires
        n == s@.len(),
        i <= n,
    ensures
        r == find_from(s@, c, i as int),
        i <= r <= n,
{
    let mut j: usize = i;
    while j < n
        invariant
            n == s@.len(),
            i <= j <= n,
            find_from(s@, c, i as int) == find_from(s@, c, j as int),
        decreases n - j,
    {
        if s.get_char(j) == c {
            return j;
        }
        j = j + 1;
    }
    j
}

fn matches_at(s: &str, i: usize, tok: &str, tk: usize) -> (r: bool)
    requires
        tk == tok@.len(),
        i + tk <= s@.len(),
        s@.len() <= usize::MAX,
    ensures
        r == (s@.subrange(i as int, i + tk) == tok@),
{
    let mut k: usize = 0;
    while k < tk
        invariant
            tk == tok@.len(),
            i + tk <= s@.len(),
            s@.len() <= usize::MAX,
            k <= tk,
            forall|j: int| 0 <= j < k ==> s@[i + j] == tok@[j],
        decreases tk - k,
    {
        if s.get_char(i + k) != tok.get_char(k) {
            assert(s@.subrange(i as int, i + tk)[k as int] != tok@[k as int]);
            return false;
        }
        k = k + 1;
    }
    assert(s@.subrange(i as int, i + tk) =~= tok@);
    true
}

fn push_char_at(out: &mut String, s: &str, i: usize)
    requires
        i < s@.len() <= usize::MAX,
    ensures
        final(out)@ == old(out)@ + seq![s@[i as int]],
{
    let one = s.substring_char(i, i + 1);
    assert(one@ =~= seq![s@[i as int]]);
    out.append(one);
}

fn strip_token(s: &str, tok: &str) -> (r: String)
    ensures
        r@ == strip_from(s@, tok@, 0),
{
    let n = s.unicode_len();
    let tk = tok.unicode_len();
    let mut out = String::new();
    let mut i: usize = 0;
    while i < n
        invariant
            n == s@.len(),
            tk == tok@.len(),
            i <= n,
            out@ + strip_from(s@, tok@, i as int) == strip_from(s@, tok@, 0),
        decreases n - i,
    {
        if tk > 0 && tk <= n - i && matches_at(s, i, tok, tk) {
            i = i + tk;
        } else {
            let ghost before = out@;
            push_char_at(&mut out, s, i);
            assert(out@ + strip_from(s@, tok@, i + 1) =~= before + strip_from(s@, tok@, i as int));
            i = i + 1;
        }
    }
    assert(out@ + strip_from(s@, tok@, i as int) =~= out@);
    out
}

fn collapse_decorated_exec(s: &str) -> (r: String)
    ensures
        r@ == collapse_decorated(s@),
{
    let n = s.unicode_len();
    let mut out = String::new();
    let mut i: usize = 0;
    while i < n
        invariant
            n == s@.len(),
            i <= n,
            out@ + decorated_from(s@, i as int) == decorated_from(s@, 0),
        decreases n - i,
    {
        let ghost before = out@;
        let mut next: usize = 0;
        if s.get_char(i) == '<' {
            let p = find_char(s, n, '|', i + 1);
            if i + 1 < p && p < n {
                let q = find_char(s, n, '>', p + 1);
                if p + 1 < q && q < n {
                    out.append(s.substring_char(p + 1, q));
                    assert(out@ + decorated_from(s@, q + 1) =~= before + decorated_from(
                        s@,
                        i as int,
                    ));
                    next = q + 1;
                }
            }
        }
        if next == 0 {
            assert(!decorated_at(s@, i as int));
            push_char_at(&mut out, s, i);
            assert(out@ + decorated_from(s@, i + 1) =~= before + decorated_from(s@, i as int));
            next = i + 1;
        }
        i = next;
    }
    assert(out@ + decorated_from(s@, i as int) =~= out@);
    out
}

fn collapse_bare_exec(s: &str) -> (r: String)
    ensures
        r@ == collapse_bare(s@),
{
    let n = s.unicode_len();
    let mut out = String::new();
    let mut i: usize = 0;
    while i < n
        invariant
            n == s@.len(),
            i <= n,
            out@ + bare_from(s@, i as int) == bare_from(s@, 0),
        decreases n - i,
    {
        let ghost before = out@;
        let mut next: usize = 0;
        if s.get_char(i) == '<' {
            let q = find_char(s, n, '>', i + 1);
            if i + 1 < q && q < n {
                out.append(s.substring_char(i + 1, q));
                assert(out@ + bare_from(s@, q + 1) =~= before + bare_from(s@, i as int));
                next = q + 1;
            }
        }
        if next == 0 {
            assert(!bare_at(s@, i as int));
            push_char_at(&mut out, s, i);
            assert(out@ + bare_from(s@, i + 1) =~= before + bare_from(s@, i as int));
            next = i + 1;
        }
        i = next;
    }
    assert(out@ + bare_from(s@, i as int) =~= out@);
    out
}

/// Rewrites the bracket markup of a message: removes every mention of the bot,
/// collapses each labelled link to its label, then each remaining bracketed
/// token to its target.
pub fn normalize_markup(raw: &str, bot_id: &str) -> (r: String)
    ensures
        r@ == markup_normalized(raw@, bot_id@),
{
    proof {
        reveal_strlit("<@");
        reveal_strlit(">");
    }
    let tok = String::from_str("<@").concat(bot_id).concat(">");
    assert(tok@ =~= mention_token(bot_id@));
    let a = strip_token(raw, tok.as_str());
    let b = collapse_decorated_exec(a.as_str());
    collapse_bare_exec(b.as_str())
}

/// Turns the raw text of a message into the plain form the engine reads: the
/// markup rewrites of `normalize_markup`, then emoji shorthand expanded.
/// Plain text comes back unchanged, so normalizing twice changes nothing more.
pub fn normalize(raw: &str, bot_id: &str) -> (r: String)
    ensures
        r@ == emoji_expanded(markup_normalized(raw@, bot_id@)),
        is_plain(raw@) ==> r@ == raw@,
{
    let m = normalize_markup(raw, bot_id);
    proof {
        if is_plain(raw@) {
            lemma_markup_normalized_plain(raw@, bot_id@);
        }
    }
    expand_emoji(m.as_str())
}

proof fn lemma_strip_plain(s: Seq<char>, tok: Seq<char>, i: int)
    requires
        !s.contains('<'),
        tok.len() > 0,
        tok[0] == '<',
        0 <= i <= s.len(),
    ensures
        strip_from(s, tok, i) == s.subrange(i, s.len() as int),
    decreases s.len() - i,
{
    if i < s.len() {
        assert(s[i] != '<');
        if i + tok.len() <= s.len() {
            assert(s.subrange(i, i + tok.len())[0] != tok[0]);
        }
        lemma_strip_plain(s, tok, i + 1);
        assert(seq![s[i]] + s.subrange(i + 1, s.len() as int) =~= s.subrange(i, s.len() as int));
    } else {
        assert(s.subrange(i, s.len() as int) =~= Seq::<char>::empty());
    }
}

proof fn lemma_decorated_plain(s: Seq<char>, i: int)
    requires
        !s.contains('<'),
        0 <= i <= s.len(),
    ensures
        decorated_from(s, i) == s.subrange(i, s.len() as int),
    decreases s.len() - i,
{
    if i < s.len() {
        assert(s[i] != '<');
        lemma_decorated_plain(s, i + 1);
        assert(seq![s[i]] + s.subrange(i + 1, s.len() as int) =~= s.subrange(i, s.len() as int));
    } else {
        assert(s.subrange(i, s.len() as int) =~= Seq::<char>::empty());
    }
}

proof fn lemma_bare_plain(s: Seq<char>, i: int)
    requires
        !s.contains('<'),
        0 <= i <= s.len(),
    ensures
        bare_from(s, i) == s.subrange(i, s.len() as int),
    decreases s.len() - i,
{
    if i < s.len() {
        assert(s[i] != '<');
        lemma_bare_plain(s, i + 1);
        assert(seq![s[i]] + s.subrange(i + 1, s.len() as int) =~= s.subrange(i, s.len() as int));
    } else {
        assert(s.subrange(i, s.len() as int) =~= Seq::<char>::empty());
    }
}

proof fn lemma_markup_normalized_plain(s: Seq<char>, bot_id: Seq<char>)
    requires
        !s.contains('<'),
    ensures
        markup_normalized(s, bot_id) == s,
{
    lemma_strip_plain(s, mention_token(bot_id), 0);
    lemma_decorated_plain(s, 0);
    lemma_bare_plain(s, 0);
    assert(s.subrange(0, s.len() as int) =~= s);
}

/// The markup rewrites are idempotent on text without brackets: such text is
/// left as it is, and so is the result of normalizing it.
pub proof fn lemma_markup_normalize_idempotent(t: Seq<char>, bot_id: Seq<char>)
    requires
        !t.contains('<'),
    ensures
        markup_normalized(t, bot_id) == t,
        markup_normalized(markup_normalized(t, bot_id), bot_id) == markup_normalized(t, bot_id),
{
    lemma_markup_normalized_plain(t, bot_id);
}

} // verus!
