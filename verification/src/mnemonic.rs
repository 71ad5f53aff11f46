//! The mnemonic grammar: `Modifier(+Modifier)*+Key`, case-insensitive,
//! whitespace tolerated around tokens. Parsing validates a mnemonic into a
//! [`Hotkey`]; formatting renders the canonical form, modifiers ordered
//! Ctrl, Alt, Shift, Meta, then the key name capitalized per the table.

use vstd::prelude::*;

use crate::keys::{
    key_chars, key_display, key_for_span, key_of_token, key_ord, key_ord_exec,
    lemma_key_token_roundtrip, modifier_for_span, modifier_of_token, KeyName, ModifierKey,
};
use crate::text::{
    is_space_exec, lemma_split_at_plus, lemma_split_no_plus, lemma_trim_empty,
    lemma_trim_front_skip, lemma_trim_back_take, lemma_trim_id, lower_seq, no_plus, no_space,
    spec_is_space, split_plus, trim_front, trim_spec,
};

verus! {

/// A validated hotkey: at least one modifier and exactly one main key.
/// Constructing one by parsing is the only way to validate a mnemonic.
#[derive(Clone, Copy, Debug, PartialEq, Eq, Structural)]
pub struct Hotkey {
    pub ctrl: bool,
    pub alt: bool,
    pub shift: bool,
    pub meta: bool,
    pub key: KeyName,
}

impl Hotkey {
    /// At least one modifier is present.
    pub open spec fn wf(self) -> bool {
        self.ctrl || self.alt || self.shift || self.meta
    }

    /// A compact numeric identity: the modifier bits beside the key's table
    /// position, never zero.
    pub open spec fn spec_id(self) -> int {
        (if self.ctrl {
            1int
        } else {
            0int
        }) + (if self.alt {
            2int
        } else {
            0int
        }) + (if self.shift {
            4int
        } else {
            0int
        }) + (if self.meta {
            8int
        } else {
            0int
        }) + 16 * (key_ord(self.key) + 1)
    }

    /// The numeric identity of this hotkey; distinct hotkeys get distinct
    /// values and no hotkey gets zero.
    pub fn id(&self) -> (r: u32)
        ensures
            r == self.spec_id(),
            r > 0,
    {
        let mut bits: u32 = 0;
        if self.ctrl {
            bits += 1;
        }
        if self.alt {
            bits += 2;
        }
        if self.shift {
            bits += 4;
        }
        if self.meta {
            bits += 8;
        }
        bits + 16 * (key_ord_exec(self.key) + 1)
    }
}

/// Why a mnemonic was rejected.
#[derive(Debug, Clone, PartialEq, Eq)]
pub enum ParseError {
    /// The string was blank.
    EmptyInput,
    /// No modifier token was found.
    NoModifier,
    /// No resolvable main-key token was found.
    NoMainKey,
    /// A non-modifier token did not resolve; carries the case-folded token.
    UnknownKey(String),
    /// More than one main-key token appeared.
    MultipleMainKeys,
}

/// The mathematical shape of a [`ParseError`].
pub enum ParseErrorV {
    EmptyInput,
    NoModifier,
    NoMainKey,
    UnknownKey(Seq<char>),
    MultipleMainKeys,
}

impl View for ParseError {
    type V = ParseErrorV;

    open spec fn view(&self) -> ParseErrorV {
        match self {
            ParseError::EmptyInput => ParseErrorV::EmptyInput,
            ParseError::NoModifier => ParseErrorV::NoModifier,
            ParseError::NoMainKey => ParseErrorV::NoMainKey,
            ParseError::UnknownKey(s) => ParseErrorV::UnknownKey(s@),
            ParseError::MultipleMainKeys => ParseErrorV::MultipleMainKeys,
        }
    }
}

/// The state the token fold carries: modifier flags, the main key seen so
/// far, and the first error, which absorbs everything after it.
pub struct ParseState {
    pub ctrl: bool,
    pub alt: bool,
    pub shift: bool,
    pub meta: bool,
    pub key: Option<KeyName>,
    pub err: Option<ParseErrorV>,
}

/// The fold's starting state.
pub open spec fn init_parse_state() -> ParseState {
    ParseState { ctrl: false, alt: false, shift: false, meta: false, key: None, err: None }
}

/// Consume one raw token: trim it, skip it when empty, case fold it, then
/// set a modifier flag, record the main key, fail with the folded token
/// when it does not resolve, or fail when a second resolvable main key
/// appears.
pub open spec fn step_token(st: ParseState, raw: Seq<char>) -> ParseState {
    if st.err is Some {
        st
    } else {
        let t = trim_spec(raw);
        if t.len() == 0 {
            st
        } else {
            let lt = lower_seq(t);
            match modifier_of_token(lt) {
                Some(ModifierKey::Ctrl) => ParseState { ctrl: true, ..st },
                Some(ModifierKey::Alt) => ParseState { alt: true, ..st },
                Some(ModifierKey::Shift) => ParseState { shift: true, ..st },
                Some(ModifierKey::Meta) => ParseState { meta: true, ..st },
                None => {
                    match key_of_token(lt) {
                        None => ParseState { err: Some(ParseErrorV::UnknownKey(lt)), ..st },
                        Some(k) => {
                            if st.key is Some {
                                ParseState { err: Some(ParseErrorV::MultipleMainKeys), ..st }
                            } else {
                                ParseState { key: Some(k), ..st }
                            }
                        }
                    }
                }
            }
        }
    }
}

/// Fold all tokens, left to right.
pub open spec fn fold_tokens(toks: Seq<Seq<char>>, st: ParseState) -> ParseState
    decreases toks.len(),
{
    if toks.len() == 0 {
        st
    } else {
        fold_tokens(toks.subrange(1, toks.len() as int), step_token(st, toks[0]))
    }
}

/// A state that already failed absorbs every further token.
pub proof fn lemma_fold_err(toks: Seq<Seq<char>>, st: ParseState)
    requires
        st.err is Some,
    ensures
        fold_tokens(toks, st) == st,
    decreases toks.len(),
{
    if toks.len() > 0 {
        lemma_fold_err(toks.subrange(1, toks.len() as int), st);
    }
}

/// What parsing a mnemonic yields: a blank string is rejected outright;
/// otherwise the tokens between `+` separators are folded, and the fold
/// must end with a main key and at least one modifier.
pub open spec fn parse_spec(s: Seq<char>) -> Result<Hotkey, ParseErrorV> {
    if trim_spec(s).len() == 0 {
        Err(ParseErrorV::EmptyInput)
    } else {
        let st = fold_tokens(split_plus(s), init_parse_state());
        match st.err {
            Some(e) => Err(e),
            None => {
                if st.key is None {
                    Err(ParseErrorV::NoMainKey)
                } else if !(st.ctrl || st.alt || st.shift || st.meta) {
                    Err(ParseErrorV::NoModifier)
                } else {
                    Ok(
                        Hotkey {
                            ctrl: st.ctrl,
                            alt: st.alt,
                            shift: st.shift,
                            meta: st.meta,
                            key: st.key.unwrap(),
                        },
                    )
                }
            }
        }
    }
}

/// The mathematical shape of a parse result.
pub open spec fn parse_result_view(r: Result<Hotkey, ParseError>) -> Result<Hotkey, ParseErrorV> {
    match r {
        Ok(h) => Ok(h),
        Err(e) => Err(e@),
    }
}

/// The state the executable scanner carries, lifted to the fold's state.
spec fn scan_state(ctrl: bool, alt: bool, shift: bool, meta: bool, key: Option<KeyName>)
    -> ParseState {
    ParseState { ctrl, alt, shift, meta, key, err: None }
}

/// Parse a mnemonic such as `Alt+Q` or `ctrl + shift + t` into a hotkey.
/// Returns exactly what [`parse_spec`] ascribes to the input: `EmptyInput`
/// on a blank string, `NoModifier` or `NoMainKey` when a part is missing,
/// `UnknownKey` with the offending token case folded, `MultipleMainKeys`
/// on a second resolvable main key, and the validated hotkey otherwise.
pub fn parse_hotkey(s: &str) -> (r: Result<Hotkey, ParseError>)
    ensures
        parse_result_view(r) == parse_spec(s@),
        r matches Ok(h) ==> h.wf(),
{
    let n = s.unicode_len();

    // Blank input is rejected before anything else.
    let mut i: usize = 0;
    while i < n && is_space_exec(s.get_char(i))
        invariant
            i <= n == s@.len(),
            forall|j: int| 0 <= j < i ==> spec_is_space(s@[j]),
        decreases n - i,
    {
        i += 1;
    }
    proof {
        lemma_trim_empty(s@);
    }
    if i == n {
        return Err(ParseError::EmptyInput);
    }
    assert(trim_spec(s@).len() > 0);

    let ghost toks = split_plus(s@);
    proof {
        assert(s@.subrange(0, n as int) =~= s@);
    }
    let mut ctrl = false;
    let mut alt = false;
    let mut shift = false;
    let mut meta = false;
    let mut key: Option<KeyName> = None;

    let mut start: usize = 0;
    let mut i: usize = 0;
    while i < n
        invariant
            start <= i <= n == s@.len(),
            forall|j: int| start <= j < i ==> s@[j] != '+',
            fold_tokens(toks, init_parse_state()) == fold_tokens(
                split_plus(s@.subrange(start as int, n as int)),
                scan_state(ctrl, alt, shift, meta, key),
            ),
            toks == split_plus(s@),
            trim_spec(s@).len() > 0,
        decreases n - i,
    {
        if s.get_char(i) == '+' {
            let ghost rest = s@.subrange(start as int, n as int);
            let ghost tok = s@.subrange(start as int, i as int);
            proof {
                assert forall|j: int| 0 <= j < i - start implies rest[j] != '+' by {
                    assert(rest[j] == s@[start + j]);
                }
                assert(rest[i - start] == '+');
                lemma_split_at_plus(rest, i - start);
                assert(rest.subrange(0, i - start) =~= tok);
                assert(rest.subrange(i - start + 1, rest.len() as int) =~= s@.subrange(
                    i + 1,
                    n as int,
                ));
                let pieces = split_plus(rest);
                assert(pieces[0] == tok);
                assert(pieces.subrange(1, pieces.len() as int) =~= split_plus(
                    s@.subrange(i + 1, n as int),
                ));
                let cur = scan_state(ctrl, alt, shift, meta, key);
                assert(fold_tokens(pieces, cur) == fold_tokens(
                    split_plus(s@.subrange(i + 1, n as int)),
                    step_token(cur, tok),
                ));
            }
            match scan_token(s, start, i, ctrl, alt, shift, meta, key) {
                Ok((c2, a2, s2, m2, k2)) => {
                    ctrl = c2;
                    alt = a2;
                    shift = s2;
                    meta = m2;
                    key = k2;
                }
                Err(e) => {
                    proof {
                        lemma_fold_err(
                            split_plus(s@.subrange(i + 1, n as int)),
                            step_token(scan_state(ctrl, alt, shift, meta, key), tok),
                        );
                    }
                    return Err(e);
                }
            }
            start = i + 1;
        }
        i += 1;
    }

    // The text after the last separator is the final token.
    let ghost rest = s@.subrange(start as int, n as int);
    let ghost tok = rest;
    proof {
        assert forall|j: int| 0 <= j < rest.len() implies rest[j] != '+' by {
            assert(rest[j] == s@[start + j]);
        }
        lemma_split_no_plus(rest);
        let pieces = split_plus(rest);
        assert(pieces[0] == tok);
        assert(pieces.subrange(1, pieces.len() as int) =~= Seq::<Seq<char>>::empty());
        let cur = scan_state(ctrl, alt, shift, meta, key);
        assert(pieces.len() == 1);
        assert(fold_tokens(pieces.subrange(1, pieces.len() as int), step_token(cur, pieces[0]))
            == step_token(cur, pieces[0]));
        assert(fold_tokens(pieces, cur) == step_token(cur, tok));
    }
    match scan_token(s, start, n, ctrl, alt, shift, meta, key) {
        Ok((c2, a2, s2, m2, k2)) => {
            ctrl = c2;
            alt = a2;
            shift = s2;
            meta = m2;
            key = k2;
        }
        Err(e) => {
            return Err(e);
        }
    }
    assert(fold_tokens(toks, init_parse_state()) == scan_state(ctrl, alt, shift, meta, key));

    match key {
        None => Err(ParseError::NoMainKey),
        Some(k) => {
            if !(ctrl || alt || shift || meta) {
                Err(ParseError::NoModifier)
            } else {
                Ok(Hotkey { ctrl, alt, shift, meta, key: k })
            }
        }
    }
}

/// Consume the raw token in `s[start..end)`: trim it, then classify it as a
/// modifier, a main key, or a failure, exactly as [`step_token`] does.
fn scan_token(
    s: &str,
    start: usize,
    end: usize,
    ctrl: bool,
    alt: bool,
    shift: bool,
    meta: bool,
    key: Option<KeyName>,
) -> (r: Result<(bool, bool, bool, bool, Option<KeyName>), ParseError>)
    requires
        start <= end <= s@.len(),
    ensures
        ({
            let next = step_token(
                scan_state(ctrl, alt, shift, meta, key),
                s@.subrange(start as int, end as int),
            );
            match r {
                Ok((c2, a2, s2, m2, k2)) => next == scan_state(c2, a2, s2, m2, k2),
                Err(e) => next.err == Some(e@) && next.ctrl == ctrl && next.alt == alt
                    && next.shift == shift && next.meta == meta && next.key == key,
            }
        }),
{
    let ghost raw = s@.subrange(start as int, end as int);

    // Trim whitespace at both ends of the token.
    let mut lo = start;
    while lo < end && is_space_exec(s.get_char(lo))
        invariant
            start <= lo <= end <= s@.len(),
            forall|j: int| start <= j < lo ==> spec_is_space(s@[j]),
        decreases end - lo,
    {
        lo += 1;
    }
    let mut hi = end;
    while hi > lo && is_space_exec(s.get_char(hi - 1))
        invariant
            lo <= hi <= end <= s@.len(),
            forall|j: int| hi <= j < end ==> spec_is_space(s@[j]),
        decreases hi,
    {
        hi -= 1;
    }
    proof {
        assert forall|j: int| 0 <= j < lo - start implies spec_is_space(raw[j]) by {
            assert(raw[j] == s@[start + j]);
        }
        if lo < end {
            assert(raw[lo - start] == s@[lo as int]);
        }
        lemma_trim_front_skip(raw, lo - start);
        let mid = raw.subrange(lo - start, raw.len() as int);
        assert forall|j: int| hi - lo <= j < mid.len() implies spec_is_space(mid[j]) by {
            assert(mid[j] == s@[lo + j]);
        }
        if hi > lo {
            assert(mid[hi - lo - 1] == s@[hi - 1]);
        }
        lemma_trim_back_take(mid, hi - lo);
        assert(trim_spec(raw) =~= s@.subrange(lo as int, hi as int));
    }

    if lo == hi {
        // An empty token (as around a doubled or trailing separator) is
        // skipped.
        assert(trim_spec(raw).len() == 0);
        return Ok((ctrl, alt, shift, meta, key));
    }

    match modifier_for_span(s, lo, hi) {
        Some(ModifierKey::Ctrl) => Ok((true, alt, shift, meta, key)),
        Some(ModifierKey::Alt) => Ok((ctrl, true, shift, meta, key)),
        Some(ModifierKey::Shift) => Ok((ctrl, alt, true, meta, key)),
        Some(ModifierKey::Meta) => Ok((ctrl, alt, shift, true, key)),
        None => {
            match key_for_span(s, lo, hi) {
                Some(k) => {
                    if key.is_some() {
                        return Err(ParseError::MultipleMainKeys);
                    }
                    Ok((ctrl, alt, shift, meta, Some(k)))
                }
                None => {
                    let name = crate::text::lower_span_string(s, lo, hi);
                    Err(ParseError::UnknownKey(name))
                }
            }
        }
    }
}

/// The canonical rendering of a hotkey: present modifiers in the fixed
/// order Ctrl, Alt, Shift, Meta, each with a trailing separator, then the
/// key's display name.
pub open spec fn canon_chars(h: Hotkey) -> Seq<char> {
    (if h.ctrl {
        "Ctrl+"@
    } else {
        Seq::<char>::empty()
    }) + (if h.alt {
        "Alt+"@
    } else {
        Seq::<char>::empty()
    }) + (if h.shift {
        "Shift+"@
    } else {
        Seq::<char>::empty()
    }) + (if h.meta {
        "Meta+"@
    } else {
        Seq::<char>::empty()
    }) + key_chars(h.key)
}

/// Render the canonical mnemonic of a hotkey.
pub fn format_hotkey(h: &Hotkey) -> (r: String)
    ensures
        r@ == canon_chars(*h),
{
    let mut out = String::new();
    if h.ctrl {
        out.append("Ctrl+");
    }
    if h.alt {
        out.append("Alt+");
    }
    if h.shift {
        out.append("Shift+");
    }
    if h.meta {
        out.append("Meta+");
    }
    out.append(key_display(h.key));
    proof {
        assert(out@ =~= canon_chars(*h));
    }
    out
}

/// Parse a mnemonic and render it back canonically: case, synonym spelling
/// and modifier order are normalized, and rejection reasons carry over.
pub fn normalize_hotkey_string(s: &str) -> (r: Result<String, ParseError>)
    ensures
        match parse_spec(s@) {
            Ok(h) => r matches Ok(c) && c@ == canon_chars(h),
            Err(e) => r matches Err(e2) && e2@ == e,
        },
{
    match parse_hotkey(s) {
        Ok(h) => Ok(format_hotkey(&h)),
        Err(e) => Err(e),
    }
}

/// Resolve a single key token (any case) through the closed key table.
pub fn parse_key_code(key: &str) -> (r: Result<KeyName, ParseError>)
    ensures
        match key_of_token(lower_seq(key@)) {
            Some(k) => r == Ok::<KeyName, ParseError>(k),
            None => r matches Err(e) && e@ == ParseErrorV::UnknownKey(key@),
        },
{
    let n = key.unicode_len();
    match key_for_span(key, 0, n) {
        Some(k) => {
            proof {
                assert(key@.subrange(0, n as int) =~= key@);
            }
            Ok(k)
        }
        None => {
            proof {
                assert(key@.subrange(0, n as int) =~= key@);
            }
            Err(ParseError::UnknownKey(key.to_owned()))
        }
    }
}

/// Folding a token list from a failed state changes nothing; folding an
/// appended list folds the two parts in order.
proof fn lemma_fold_append(a: Seq<Seq<char>>, b: Seq<Seq<char>>, st: ParseState)
    ensures
        fold_tokens(a + b, st) == fold_tokens(b, fold_tokens(a, st)),
    decreases a.len(),
{
    if a.len() == 0 {
        assert(a + b =~= b);
    } else {
        let a2 = a.subrange(1, a.len() as int);
        lemma_fold_append(a2, b, step_token(st, a[0]));
        assert((a + b).subrange(1, (a + b).len() as int) =~= a2 + b);
        assert((a + b)[0] == a[0]);
    }
}

/// Folding a single token is one step.
proof fn lemma_fold_one(x: Seq<char>, st: ParseState)
    ensures
        fold_tokens(seq![x], st) == step_token(st, x),
{
    let pieces = seq![x];
    let rest = pieces.subrange(1, 1);
    assert(rest =~= Seq::<Seq<char>>::empty());
    assert(fold_tokens(rest, step_token(st, x)) == step_token(st, x));
}

/// Splitting a token followed by a separator peels the token off.
proof fn lemma_split_prefix(name: Seq<char>, rest: Seq<char>)
    requires
        no_plus(name),
    ensures
        split_plus(name + seq!['+'] + rest) =~= seq![name] + split_plus(rest),
{
    let s = name + seq!['+'] + rest;
    assert(s[name.len() as int] == '+');
    assert forall|j: int| 0 <= j < name.len() implies s[j] != '+' by {
        assert(s[j] == name[j]);
    }
    lemma_split_at_plus(s, name.len() as int);
    assert(s.subrange(0, name.len() as int) =~= name);
    assert(s.subrange(name.len() as int + 1, s.len() as int) =~= rest);
}

/// What one canonical modifier prefix contributes: the text before its
/// separator is a clean token that resolves to that modifier.
proof fn lemma_mod_token_facts()
    ensures
        "Ctrl+"@ == "Ctrl"@ + seq!['+'],
        "Alt+"@ == "Alt"@ + seq!['+'],
        "Shift+"@ == "Shift"@ + seq!['+'],
        "Meta+"@ == "Meta"@ + seq!['+'],
        no_plus("Ctrl"@) && no_space("Ctrl"@) && "Ctrl"@.len() > 0,
        no_plus("Alt"@) && no_space("Alt"@) && "Alt"@.len() > 0,
        no_plus("Shift"@) && no_space("Shift"@) && "Shift"@.len() > 0,
        no_plus("Meta"@) && no_space("Meta"@) && "Meta"@.len() > 0,
        modifier_of_token(lower_seq("Ctrl"@)) == Some(ModifierKey::Ctrl),
        modifier_of_token(lower_seq("Alt"@)) == Some(ModifierKey::Alt),
        modifier_of_token(lower_seq("Shift"@)) == Some(ModifierKey::Shift),
        modifier_of_token(lower_seq("Meta"@)) == Some(ModifierKey::Meta),
{
    reveal_strlit("Ctrl+");
    reveal_strlit("Alt+");
    reveal_strlit("Shift+");
    reveal_strlit("Meta+");
    reveal_strlit("Ctrl");
    reveal_strlit("Alt");
    reveal_strlit("Shift");
    reveal_strlit("Meta");
    reveal_strlit("ctrl");
    reveal_strlit("control");
    reveal_strlit("alt");
    reveal_strlit("option");
    reveal_strlit("opt");
    reveal_strlit("shift");
    reveal_strlit("win");
    reveal_strlit("super");
    reveal_strlit("meta");
    reveal_strlit("cmd");
    reveal_strlit("command");
    assert("Ctrl+"@ =~= "Ctrl"@ + seq!['+']);
    assert("Alt+"@ =~= "Alt"@ + seq!['+']);
    assert("Shift+"@ =~= "Shift"@ + seq!['+']);
    assert("Meta+"@ =~= "Meta"@ + seq!['+']);
    assert(lower_seq("Ctrl"@) =~= "ctrl"@);
    assert(lower_seq("Alt"@) =~= "alt"@);
    assert(lower_seq("Shift"@) =~= "shift"@);
    assert(lower_seq("Meta"@) =~= "meta"@);
    assert("meta"@[0] != "ctrl"@[0]);
    assert("meta"@ != "ctrl"@);
}

/// Stepping the fold with a clean modifier token sets that flag and nothing
/// else.
proof fn lemma_step_mod(st: ParseState, name: Seq<char>, m: ModifierKey)
    requires
        st.err is None,
        name.len() > 0,
        no_space(name),
        modifier_of_token(lower_seq(name)) == Some(m),
    ensures
        step_token(st, name) == (match m {
            ModifierKey::Ctrl => ParseState { ctrl: true, ..st },
            ModifierKey::Alt => ParseState { alt: true, ..st },
            ModifierKey::Shift => ParseState { shift: true, ..st },
            ModifierKey::Meta => ParseState { meta: true, ..st },
        }),
{
    lemma_trim_id(name);
}

/// The round-trip law: parsing the canonical rendering of a valid hotkey
/// gives exactly that hotkey back.
#[verifier::rlimit(100)]
pub proof fn lemma_parse_canonical(h: Hotkey)
    requires
        h.wf(),
    ensures
        parse_spec(canon_chars(h)) == Ok::<Hotkey, ParseErrorV>(h),
{
    lemma_mod_token_facts();
    lemma_key_token_roundtrip(h.key);
    let k = key_chars(h.key);
    let empty = Seq::<char>::empty();
    let no_toks = Seq::<Seq<char>>::empty();

    // Peel the modifier prefixes off the canonical string, front to back.
    let s_meta = (if h.meta { "Meta+"@ } else { empty }) + k;
    let s_shift = (if h.shift { "Shift+"@ } else { empty }) + s_meta;
    let s_alt = (if h.alt { "Alt+"@ } else { empty }) + s_shift;
    let s_ctrl = (if h.ctrl { "Ctrl+"@ } else { empty }) + s_alt;
    assert(canon_chars(h) =~= s_ctrl);

    let t_key = seq![k];
    lemma_split_no_plus(k);
    assert(split_plus(k) =~= t_key);

    let t_meta = (if h.meta { seq!["Meta"@] } else { no_toks }) + t_key;
    if h.meta {
        assert(s_meta =~= "Meta"@ + seq!['+'] + k);
        lemma_split_prefix("Meta"@, k);
        assert(split_plus(s_meta) =~= t_meta);
    } else {
        assert(s_meta =~= k);
        assert(split_plus(s_meta) =~= t_meta);
    }

    let t_shift = (if h.shift { seq!["Shift"@] } else { no_toks }) + t_meta;
    if h.shift {
        assert(s_shift =~= "Shift"@ + seq!['+'] + s_meta);
        lemma_split_prefix("Shift"@, s_meta);
        assert(split_plus(s_shift) =~= t_shift);
    } else {
        assert(s_shift =~= s_meta);
        assert(split_plus(s_shift) =~= t_shift);
    }

    let t_alt = (if h.alt { seq!["Alt"@] } else { no_toks }) + t_shift;
    if h.alt {
        assert(s_alt =~= "Alt"@ + seq!['+'] + s_shift);
        lemma_split_prefix("Alt"@, s_shift);
        assert(split_plus(s_alt) =~= t_alt);
    } else {
        assert(s_alt =~= s_shift);
        assert(split_plus(s_alt) =~= t_alt);
    }

    let t_ctrl = (if h.ctrl { seq!["Ctrl"@] } else { no_toks }) + t_alt;
    if h.ctrl {
        assert(s_ctrl =~= "Ctrl"@ + seq!['+'] + s_alt);
        lemma_split_prefix("Ctrl"@, s_alt);
        assert(split_plus(s_ctrl) =~= t_ctrl);
    } else {
        assert(s_ctrl =~= s_alt);
        assert(split_plus(s_ctrl) =~= t_ctrl);
    }

    // The canonical string is not blank: the key's first character stays.
    lemma_trim_empty(s_ctrl);
    let pre = s_ctrl.len() - k.len();
    assert(s_ctrl[pre] == k[0]);
    assert(!spec_is_space(k[0]));
    assert(trim_spec(s_ctrl).len() > 0);

    // Fold the tokens: each modifier prefix sets its flag, the key token
    // records the key.
    let st0 = init_parse_state();
    let st1 = if h.ctrl {
        ParseState { ctrl: true, ..st0 }
    } else {
        st0
    };
    if h.ctrl {
        lemma_fold_append(seq!["Ctrl"@], t_alt, st0);
        lemma_fold_one("Ctrl"@, st0);
        lemma_step_mod(st0, "Ctrl"@, ModifierKey::Ctrl);
        assert(t_ctrl =~= seq!["Ctrl"@] + t_alt);
    }
    assert(fold_tokens(t_ctrl, st0) == fold_tokens(t_alt, st1));

    let st2 = if h.alt {
        ParseState { alt: true, ..st1 }
    } else {
        st1
    };
    if h.alt {
        lemma_fold_append(seq!["Alt"@], t_shift, st1);
        lemma_fold_one("Alt"@, st1);
        lemma_step_mod(st1, "Alt"@, ModifierKey::Alt);
        assert(t_alt =~= seq!["Alt"@] + t_shift);
    }
    assert(fold_tokens(t_alt, st1) == fold_tokens(t_shift, st2));

    let st3 = if h.shift {
        ParseState { shift: true, ..st2 }
    } else {
        st2
    };
    if h.shift {
        lemma_fold_append(seq!["Shift"@], t_meta, st2);
        lemma_fold_one("Shift"@, st2);
        lemma_step_mod(st2, "Shift"@, ModifierKey::Shift);
        assert(t_shift =~= seq!["Shift"@] + t_meta);
    }
    assert(fold_tokens(t_shift, st2) == fold_tokens(t_meta, st3));

    let st4 = if h.meta {
        ParseState { meta: true, ..st3 }
    } else {
        st3
    };
    if h.meta {
        lemma_fold_append(seq!["Meta"@], t_key, st3);
        lemma_fold_one("Meta"@, st3);
        lemma_step_mod(st3, "Meta"@, ModifierKey::Meta);
        assert(t_meta =~= seq!["Meta"@] + t_key);
    }
    assert(fold_tokens(t_meta, st3) == fold_tokens(t_key, st4));

    // The key token.
    lemma_fold_one(k, st4);
    lemma_trim_id(k);
    let st5 = fold_tokens(t_key, st4);
    assert(st5 == ParseState { key: Some(h.key), ..st4 });

    assert(fold_tokens(split_plus(canon_chars(h)), st0) == st5);
    assert(st5.ctrl == h.ctrl && st5.alt == h.alt && st5.shift == h.shift && st5.meta == h.meta);
    assert(st5.err is None && st5.key == Some(h.key));
}

/// The canonical rendering identifies a hotkey: two valid hotkeys with the
/// same canonical mnemonic are the same hotkey.
pub proof fn lemma_canonical_injective(h1: Hotkey, h2: Hotkey)
    requires
        h1.wf(),
        h2.wf(),
        canon_chars(h1) == canon_chars(h2),
    ensures
        h1 == h2,
{
    lemma_parse_canonical(h1);
    lemma_parse_canonical(h2);
}

/// Parsing never accepts a hotkey without a modifier.
pub proof fn lemma_parse_wf(s: Seq<char>)
    ensures
        parse_spec(s) matches Ok(h) ==> h.wf(),
{
}

/// The canonical rendering of a mnemonic is a fixed point: whatever valid
/// spelling a hotkey was parsed from, its canonical form parses back to the
/// same hotkey, so canonicalizing twice changes nothing.
pub proof fn lemma_round_trip(m: Seq<char>, h: Hotkey)
    requires
        parse_spec(m) == Ok::<Hotkey, ParseErrorV>(h),
    ensures
        parse_spec(canon_chars(h)) == Ok::<Hotkey, ParseErrorV>(h),
{
    lemma_parse_wf(m);
    lemma_parse_canonical(h);
}

/// The canonical display name of a single key token, if it resolves.
pub fn normalize_key_name(key: &str) -> (r: Option<&'static str>)
    ensures
        match key_of_token(lower_seq(key@)) {
            Some(k) => r matches Some(d) && d@ == key_chars(k),
            None => r is None,
        },
{
    let n = key.unicode_len();
    match key_for_span(key, 0, n) {
        Some(k) => {
            proof {
                assert(key@.subrange(0, n as int) =~= key@);
            }
            Some(key_display(k))
        }
        None => {
            proof {
                assert(key@.subrange(0, n as int) =~= key@);
            }
            None
        }
    }
}

} // verus!
