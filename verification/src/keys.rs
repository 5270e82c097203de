//! Logical key events and their wire encoding.
//!
//! A key event pairs a logical key with a modifier set. `key_to_bytes` turns
//! an event into the byte sequence an interactive shell expects on its input;
//! an empty sequence means the event has no wire representation and is
//! dropped, never written. `matches_pattern` decides whether an event matches
//! a textual combination pattern such as `ctrl+shift+c`.

use vstd::prelude::*;
use vstd::string::StringSliceAdditionalSpecFns;

verus! {

/// The logical key of a key event: a printable character, a named key, or a
/// function key. `Other` stands for every key the engine does not encode.
#[derive(Clone, Copy, Debug, PartialEq, Eq, Structural)]
pub enum KeyCode {
    Char(char),
    Enter,
    Tab,
    Backspace,
    Esc,
    Up,
    Down,
    Left,
    Right,
    Home,
    End,
    PageUp,
    PageDown,
    Delete,
    Insert,
    F(u8),
    Other,
}

/// The modifier set of a key event, a subset of {ctrl, alt, shift}.
#[derive(Clone, Copy, Debug, PartialEq, Eq, Structural)]
pub struct KeyModifiers {
    pub ctrl: bool,
    pub alt: bool,
    pub shift: bool,
}

impl KeyModifiers {
    /// The empty modifier set.
    pub fn empty() -> (m: KeyModifiers)
        ensures
            m == (KeyModifiers { ctrl: false, alt: false, shift: false }),
    {
        KeyModifiers { ctrl: false, alt: false, shift: false }
    }

    /// A modifier set with exactly the named members.
    pub fn new(ctrl: bool, alt: bool, shift: bool) -> (m: KeyModifiers)
        ensures
            m == (KeyModifiers { ctrl, alt, shift }),
    {
        KeyModifiers { ctrl, alt, shift }
    }
}

/// Whether `c` is an ASCII letter.
pub open spec fn is_ascii_letter(c: char) -> bool {
    (97 <= c as u32 && c as u32 <= 122) || (65 <= c as u32 && c as u32 <= 90)
}

/// Whether `c` is an ASCII character.
pub open spec fn is_ascii_char(c: char) -> bool {
    c as u32 <= 127
}

/// The byte of the uppercase form of an ASCII letter.
pub open spec fn upper_letter_byte(c: char) -> u8 {
    if 97 <= c as u32 && c as u32 <= 122 {
        (c as u32 - 32) as u8
    } else {
        c as u8
    }
}

/// The control byte of an ASCII letter: one for ctrl+a up to twenty-six for
/// ctrl+z.
pub open spec fn ctrl_code(c: char) -> u8 {
    (upper_letter_byte(c) - 64) as u8
}

/// The byte sequence a key event is encoded to before it is written to the
/// shell. An empty sequence means the event is dropped silently: the table
/// is deliberately closed, and everything outside it has no wire form.
pub open spec fn spec_key_bytes(code: KeyCode, m: KeyModifiers) -> Seq<u8> {
    match code {
        KeyCode::Char(c) => {
            if m.ctrl {
                if is_ascii_letter(c) {
                    seq![ctrl_code(c)]
                } else {
                    Seq::empty()
                }
            } else if is_ascii_char(c) {
                if m.alt {
                    seq![27u8, c as u8]
                } else {
                    seq![c as u8]
                }
            } else {
                Seq::empty()
            }
        },
        KeyCode::Enter => seq![13u8],
        KeyCode::Tab => seq![9u8],
        KeyCode::Backspace => seq![127u8],
        KeyCode::Esc => seq![27u8],
        KeyCode::Up => seq![27u8, 91u8, 65u8],
        KeyCode::Down => seq![27u8, 91u8, 66u8],
        KeyCode::Right => seq![27u8, 91u8, 67u8],
        KeyCode::Left => seq![27u8, 91u8, 68u8],
        KeyCode::Home => seq![27u8, 91u8, 72u8],
        KeyCode::End => seq![27u8, 91u8, 70u8],
        KeyCode::PageUp => seq![27u8, 91u8, 53u8, 126u8],
        KeyCode::PageDown => seq![27u8, 91u8, 54u8, 126u8],
        KeyCode::Delete => seq![27u8, 91u8, 51u8, 126u8],
        KeyCode::Insert => seq![27u8, 91u8, 50u8, 126u8],
        KeyCode::F(n) => {
            if 1 <= n && n <= 4 {
                seq![27u8, 79u8, (79 + n) as u8]
            } else if 5 <= n && n <= 12 {
                seq![27u8, 91u8, 49u8, (48 + n) as u8, 126u8]
            } else {
                Seq::empty()
            }
        },
        KeyCode::Other => Seq::empty(),
    }
}

/// Whether the encoding table has an entry for this key and modifier pair.
/// Pairs without an entry are exactly those that encode to the empty
/// sequence.
pub open spec fn spec_has_entry(code: KeyCode, m: KeyModifiers) -> bool {
    match code {
        KeyCode::Char(c) => {
            if m.ctrl {
                is_ascii_letter(c)
            } else {
                is_ascii_char(c)
            }
        },
        KeyCode::F(n) => 1 <= n && n <= 12,
        KeyCode::Other => false,
        _ => true,
    }
}

/// A key and modifier pair lies in the encoding table exactly when its
/// encoding is non-empty: everything outside the table is dropped silently.
pub proof fn lemma_table_entry_iff_nonempty(code: KeyCode, m: KeyModifiers)
    ensures
        spec_has_entry(code, m) <==> spec_key_bytes(code, m).len() > 0,
{
}

/// A key and modifier pair outside the encoding table encodes to the empty
/// sequence: such an event is dropped silently, never written to the shell.
pub proof fn lemma_unmapped_key_encodes_empty(code: KeyCode, m: KeyModifiers)
    requires
        !spec_has_entry(code, m),
    ensures
        spec_key_bytes(code, m) == Seq::<u8>::empty(),
{
    assert(spec_key_bytes(code, m) =~= Seq::<u8>::empty());
}

/// Encode a key event as the bytes an interactive shell expects; an empty
/// vector means the event has no wire form and must not be written.
pub fn key_to_bytes(code: KeyCode, m: KeyModifiers) -> (r: Vec<u8>)
    ensures
        r@ == spec_key_bytes(code, m),
{
    match code {
        KeyCode::Char(c) => {
            let u: u32 = c as u32;
            if m.ctrl {
                if (97 <= u && u <= 122) || (65 <= u && u <= 90) {
                    let upper: u8 = if 97 <= u && u <= 122 {
                        (u - 32) as u8
                    } else {
                        u as u8
                    };
                    vec![upper - 64]
                } else {
                    Vec::new()
                }
            } else if u <= 127 {
                if m.alt {
                    vec![27u8, u as u8]
                } else {
                    vec![u as u8]
                }
            } else {
                Vec::new()
            }
        },
        KeyCode::Enter => vec![13u8],
        KeyCode::Tab => vec![9u8],
        KeyCode::Backspace => vec![127u8],
        KeyCode::Esc => vec![27u8],
        KeyCode::Up => vec![27u8, 91u8, 65u8],
        KeyCode::Down => vec![27u8, 91u8, 66u8],
        KeyCode::Right => vec![27u8, 91u8, 67u8],
        KeyCode::Left => vec![27u8, 91u8, 68u8],
        KeyCode::Home => vec![27u8, 91u8, 72u8],
        KeyCode::End => vec![27u8, 91u8, 70u8],
        KeyCode::PageUp => vec![27u8, 91u8, 53u8, 126u8],
        KeyCode::PageDown => vec![27u8, 91u8, 54u8, 126u8],
        KeyCode::Delete => vec![27u8, 91u8, 51u8, 126u8],
        KeyCode::Insert => vec![27u8, 91u8, 50u8, 126u8],
        KeyCode::F(n) => {
            if 1 <= n && n <= 4 {
                vec![27u8, 79u8, 79 + n]
            } else if 5 <= n && n <= 12 {
                vec![27u8, 91u8, 49u8, 48 + n, 126u8]
            } else {
                Vec::new()
            }
        },
        KeyCode::Other => Vec::new(),
    }
}

/// Lowercase an ASCII byte; bytes outside the uppercase letters are kept.
pub open spec fn lower_byte(b: u8) -> u8 {
    if 65 <= b && b <= 90 {
        (b + 32) as u8
    } else {
        b
    }
}

/// Pointwise ASCII lowering of a byte sequence.
pub open spec fn spec_lower(s: Seq<u8>) -> Seq<u8> {
    s.map_values(|b: u8| lower_byte(b))
}

/// Split a byte sequence at every plus sign (byte 43). The result always
/// holds at least one piece; empty pieces are kept, so they can be rejected
/// later as unknown tokens.
pub open spec fn spec_split_plus(s: Seq<u8>) -> Seq<Seq<u8>>
    decreases s.len(),
{
    if s.len() == 0 {
        seq![Seq::<u8>::empty()]
    } else {
        let rest = spec_split_plus(s.drop_last());
        if s.last() == 43 {
            rest.push(Seq::empty())
        } else {
            rest.update(rest.len() - 1, rest.last().push(s.last()))
        }
    }
}

pub proof fn lemma_split_plus_nonempty(s: Seq<u8>)
    ensures
        spec_split_plus(s).len() >= 1,
    decreases s.len(),
{
    if s.len() > 0 {
        lemma_split_plus_nonempty(s.drop_last());
    }
}

/// The modifier-name tokens, already lowered: `ctrl`, `alt`, `shift`.
pub open spec fn tok_ctrl() -> Seq<u8> {
    seq![99u8, 116u8, 114u8, 108u8]
}

pub open spec fn tok_alt() -> Seq<u8> {
    seq![97u8, 108u8, 116u8]
}

pub open spec fn tok_shift() -> Seq<u8> {
    seq![115u8, 104u8, 105u8, 102u8, 116u8]
}

/// The named keys of the pattern table: `enter`, `tab`, `space`, `esc`,
/// `backspace`.
pub open spec fn tok_enter() -> Seq<u8> {
    seq![101u8, 110u8, 116u8, 101u8, 114u8]
}

pub open spec fn tok_tab() -> Seq<u8> {
    seq![116u8, 97u8, 98u8]
}

pub open spec fn tok_space() -> Seq<u8> {
    seq![115u8, 112u8, 97u8, 99u8, 101u8]
}

pub open spec fn tok_esc() -> Seq<u8> {
    seq![101u8, 115u8, 99u8]
}

pub open spec fn tok_backspace() -> Seq<u8> {
    seq![98u8, 97u8, 99u8, 107u8, 115u8, 112u8, 97u8, 99u8, 101u8]
}

/// Fold the modifier tokens into a modifier set. A token that is not a
/// modifier name makes the whole pattern unparseable, and unparseable
/// patterns fail closed: they match nothing.
pub open spec fn spec_accum_mods(toks: Seq<Seq<u8>>, acc: KeyModifiers) -> Option<KeyModifiers>
    decreases toks.len(),
{
    if toks.len() == 0 {
        Some(acc)
    } else if toks[0] == tok_ctrl() {
        spec_accum_mods(
            toks.drop_first(),
            KeyModifiers { ctrl: true, alt: acc.alt, shift: acc.shift },
        )
    } else if toks[0] == tok_alt() {
        spec_accum_mods(
            toks.drop_first(),
            KeyModifiers { ctrl: acc.ctrl, alt: true, shift: acc.shift },
        )
    } else if toks[0] == tok_shift() {
        spec_accum_mods(
            toks.drop_first(),
            KeyModifiers { ctrl: acc.ctrl, alt: acc.alt, shift: true },
        )
    } else {
        None
    }
}

/// Whether a lowered key-name token names the given logical key. The table
/// is fixed: `;`, the named keys, and single ASCII letters, which match the
/// key's character case-insensitively. Every other token matches nothing.
pub open spec fn spec_key_tok_matches(t: Seq<u8>, code: KeyCode) -> bool {
    if t == seq![59u8] {
        code == KeyCode::Char(';')
    } else if t == tok_enter() {
        code == KeyCode::Enter
    } else if t == tok_tab() {
        code == KeyCode::Tab
    } else if t == tok_space() {
        code == KeyCode::Char(' ')
    } else if t == tok_esc() {
        code == KeyCode::Esc
    } else if t == tok_backspace() {
        code == KeyCode::Backspace
    } else if t.len() == 1 && 97 <= t[0] && t[0] <= 122 {
        match code {
            KeyCode::Char(c) => is_ascii_letter(c) && lower_byte(c as u8) == t[0],
            _ => false,
        }
    } else {
        false
    }
}

/// Whether a key event matches a combination pattern, given as the pattern's
/// UTF-8 bytes. The pattern is lowered, split at plus signs, all pieces but
/// the last must be modifier names, and the key's modifier set must equal
/// the named set exactly; the last piece must name the key. Anything
/// unparseable matches nothing.
pub open spec fn spec_matches_pattern(code: KeyCode, m: KeyModifiers, pat: Seq<u8>) -> bool {
    let toks = spec_split_plus(spec_lower(pat));
    match spec_accum_mods(
        toks.drop_last(),
        KeyModifiers { ctrl: false, alt: false, shift: false },
    ) {
        Some(em) => em == m && spec_key_tok_matches(toks.last(), code),
        None => false,
    }
}

/// Pattern matching is case-insensitive: a pattern and its lowered form
/// match exactly the same key events.
pub proof fn lemma_pattern_case_insensitive(code: KeyCode, m: KeyModifiers, pat: Seq<u8>)
    ensures
        spec_matches_pattern(code, m, pat) == spec_matches_pattern(code, m, spec_lower(pat)),
{
    assert(spec_lower(spec_lower(pat)) =~= spec_lower(pat));
}

/// Pattern matching demands the exact modifier set, never a subset or a
/// superset: one pattern cannot match the same key under two different
/// modifier sets.
pub proof fn lemma_pattern_exact_modifiers(
    code: KeyCode,
    m1: KeyModifiers,
    m2: KeyModifiers,
    pat: Seq<u8>,
)
    requires
        spec_matches_pattern(code, m1, pat),
        m1 != m2,
    ensures
        !spec_matches_pattern(code, m2, pat),
{
}

/// The lowered bytes of a pattern string.
fn lower_bytes(pattern: &str) -> (r: Vec<u8>)
    ensures
        r@ == spec_lower(pattern.spec_bytes()),
{
    let bs = pattern.as_bytes();
    let mut r: Vec<u8> = Vec::new();
    let mut i: usize = 0;
    while i < bs.len()
        invariant
            i <= bs@.len(),
            bs@ == pattern.spec_bytes(),
            r@ == spec_lower(bs@.take(i as int)),
        decreases bs@.len() - i,
    {
        let b = bs[i];
        let lb = if 65 <= b && b <= 90 {
            b + 32
        } else {
            b
        };
        r.push(lb);
        proof {
            assert(bs@.take(i as int + 1).drop_last() =~= bs@.take(i as int));
            assert(spec_lower(bs@.take(i as int + 1)) =~= spec_lower(bs@.take(i as int)).push(
                lower_byte(bs@[i as int]),
            ));
        }
        i += 1;
    }
    proof {
        assert(bs@.take(bs@.len() as int) =~= bs@);
    }
    r
}

/// The view of a vector of token vectors, as a sequence of byte sequences.
pub open spec fn tok_views(toks: Seq<Vec<u8>>) -> Seq<Seq<u8>> {
    toks.map_values(|t: Vec<u8>| t@)
}

/// Split the lowered pattern at plus signs.
fn split_plus(s: &Vec<u8>) -> (toks: Vec<Vec<u8>>)
    ensures
        tok_views(toks@) == spec_split_plus(s@),
        toks@.len() >= 1,
{
    let mut toks: Vec<Vec<u8>> = Vec::new();
    let mut cur: Vec<u8> = Vec::new();
    let mut i: usize = 0;
    while i < s.len()
        invariant
            i <= s@.len(),
            tok_views(toks@).push(cur@) == spec_split_plus(s@.take(i as int)),
        decreases s@.len() - i,
    {
        let b = s[i];
        proof {
            assert(s@.take(i as int + 1).drop_last() =~= s@.take(i as int));
            lemma_split_plus_nonempty(s@.take(i as int));
        }
        let ghost prev_toks = tok_views(toks@);
        let ghost prev_cur = cur@;
        if b == 43 {
            toks.push(cur);
            cur = Vec::new();
            proof {
                assert(tok_views(toks@) =~= prev_toks.push(prev_cur));
                assert(tok_views(toks@).push(cur@) =~= spec_split_plus(s@.take(i as int)).push(
                    Seq::empty(),
                ));
            }
        } else {
            cur.push(b);
            proof {
                let r = spec_split_plus(s@.take(i as int));
                assert(r.last() == prev_cur);
                assert(r.update(r.len() - 1, prev_cur.push(b)) =~= prev_toks.push(prev_cur.push(b)));
                assert(tok_views(toks@).push(cur@) =~= prev_toks.push(prev_cur.push(b)));
            }
        }
        i += 1;
    }
    toks.push(cur);
    proof {
        assert(s@.take(s@.len() as int) =~= s@);
        assert(tok_views(toks@) =~= spec_split_plus(s@));
    }
    toks
}

/// Whether two byte vectors hold the same bytes.
fn bytes_eq(a: &Vec<u8>, b: &Vec<u8>) -> (r: bool)
    ensures
        r == (a@ == b@),
{
    if a.len() != b.len() {
        proof {
            assert(a@ != b@);
        }
        return false;
    }
    let mut i: usize = 0;
    while i < a.len()
        invariant
            i <= a@.len(),
            a@.len() == b@.len(),
            forall|j: int| 0 <= j < i ==> a@[j] == b@[j],
        decreases a@.len() - i,
    {
        if a[i] != b[i] {
            proof {
                assert(a@ != b@);
            }
            return false;
        }
        i += 1;
    }
    proof {
        assert(a@ =~= b@);
    }
    true
}

/// Fold the modifier tokens (every piece but the last) into a modifier set.
fn accum_mods(toks: &Vec<Vec<u8>>) -> (r: Option<KeyModifiers>)
    requires
        toks@.len() >= 1,
    ensures
        r == spec_accum_mods(
            tok_views(toks@).drop_last(),
            KeyModifiers { ctrl: false, alt: false, shift: false },
        ),
{
    let ghost full = tok_views(toks@).drop_last();
    let mut acc = KeyModifiers { ctrl: false, alt: false, shift: false };
    let mut j: usize = 0;
    let n = toks.len() - 1;
    proof {
        assert(full.subrange(0, full.len() as int) =~= full);
    }
    while j < n
        invariant
            j <= n,
            n + 1 == toks@.len(),
            full == tok_views(toks@).drop_last(),
            spec_accum_mods(full.subrange(j as int, full.len() as int), acc) == spec_accum_mods(
                full,
                KeyModifiers { ctrl: false, alt: false, shift: false },
            ),
        decreases n - j,
    {
        let t = &toks[j];
        proof {
            let rest = full.subrange(j as int, full.len() as int);
            assert(rest[0] == full[j as int]);
            assert(full[j as int] == toks@[j as int]@);
            assert(rest.drop_first() =~= full.subrange(j as int + 1, full.len() as int));
        }
        if bytes_eq(t, &vec![99, 116, 114, 108]) {
            proof {
                assert(t@ =~= tok_ctrl());
            }
            acc = KeyModifiers { ctrl: true, alt: acc.alt, shift: acc.shift };
        } else if bytes_eq(t, &vec![97, 108, 116]) {
            proof {
                assert(t@ =~= tok_alt());
            }
            acc = KeyModifiers { ctrl: acc.ctrl, alt: true, shift: acc.shift };
        } else if bytes_eq(t, &vec![115, 104, 105, 102, 116]) {
            proof {
                assert(t@ =~= tok_shift());
            }
            acc = KeyModifiers { ctrl: acc.ctrl, alt: acc.alt, shift: true };
        } else {
            proof {
                assert(t@ != tok_ctrl() && t@ != tok_alt() && t@ != tok_shift());
            }
            return None;
        }
        j += 1;
    }
    proof {
        assert(full.subrange(n as int, full.len() as int) =~= Seq::<Seq<u8>>::empty());
    }
    Some(acc)
}

/// Whether the last (lowered) piece of the pattern names the logical key.
fn key_tok_matches(t: &Vec<u8>, code: KeyCode) -> (r: bool)
    ensures
        r == spec_key_tok_matches(t@, code),
{
    if t.len() == 1 && t[0] == 59 {
        proof {
            assert(t@ =~= seq![59u8]);
        }
        return match code {
            KeyCode::Char(c) => c == ';',
            _ => false,
        };
    }
    proof {
        assert(t@ != seq![59u8]);
    }
    if bytes_eq(t, &vec![101, 110, 116, 101, 114]) {
        proof {
            assert(t@ =~= tok_enter());
        }
        return match code {
            KeyCode::Enter => true,
            _ => false,
        };
    }
    if bytes_eq(t, &vec![116, 97, 98]) {
        proof {
            assert(t@ =~= tok_tab());
        }
        return match code {
            KeyCode::Tab => true,
            _ => false,
        };
    }
    if bytes_eq(t, &vec![115, 112, 97, 99, 101]) {
        proof {
            assert(t@ =~= tok_space());
        }
        return match code {
            KeyCode::Char(c) => c == ' ',
            _ => false,
        };
    }
    if bytes_eq(t, &vec![101, 115, 99]) {
        proof {
            assert(t@ =~= tok_esc());
        }
        return match code {
            KeyCode::Esc => true,
            _ => false,
        };
    }
    if bytes_eq(t, &vec![98, 97, 99, 107, 115, 112, 97, 99, 101]) {
        proof {
            assert(t@ =~= tok_backspace());
        }
        return match code {
            KeyCode::Backspace => true,
            _ => false,
        };
    }
    if t.len() == 1 {
        let b = t[0];
        if 97 <= b && b <= 122 {
            return match code {
                KeyCode::Char(c) => {
                    let u: u32 = c as u32;
                    let is_letter = (97 <= u && u <= 122) || (65 <= u && u <= 90);
                    if is_letter {
                        let lowered: u8 = if 65 <= u && u <= 90 {
                            (u + 32) as u8
                        } else {
                            u as u8
                        };
                        lowered == b
                    } else {
                        false
                    }
                },
                _ => false,
            };
        }
    }
    false
}

/// A key event as read from the surrounding terminal: the logical key, its
/// modifier set, and the bytes it encodes to, fixed at construction.
#[derive(Clone, Debug, PartialEq)]
pub struct KeyInput {
    pub code: KeyCode,
    pub modifiers: KeyModifiers,
    pub raw_bytes: Vec<u8>,
}

impl KeyInput {
    /// The bytes always agree with the encoding table.
    pub open spec fn wf(&self) -> bool {
        self.raw_bytes@ == spec_key_bytes(self.code, self.modifiers)
    }

    /// Build a key event; its wire bytes are derived from the table once.
    pub fn new(code: KeyCode, modifiers: KeyModifiers) -> (k: KeyInput)
        ensures
            k.code == code,
            k.modifiers == modifiers,
            k.wf(),
    {
        KeyInput { code, modifiers, raw_bytes: key_to_bytes(code, modifiers) }
    }

    /// Whether this event matches a combination pattern such as
    /// `ctrl+shift+c`: the named modifier set must equal this event's set
    /// exactly, and the key name must resolve to this event's key.
    /// Unparseable or unknown patterns match nothing.
    pub fn matches_pattern(&self, pattern: &str) -> (r: bool)
        ensures
            r == spec_matches_pattern(self.code, self.modifiers, pattern.spec_bytes()),
    {
        let lowered = lower_bytes(pattern);
        let toks = split_plus(&lowered);
        match accum_mods(&toks) {
            Some(em) => {
                if em.ctrl == self.modifiers.ctrl && em.alt == self.modifiers.alt && em.shift
                    == self.modifiers.shift {
                    let last = &toks[toks.len() - 1];
                    proof {
                        assert(toks@[toks@.len() - 1]@ == tok_views(toks@).last());
                    }
                    key_tok_matches(last, self.code)
                } else {
                    false
                }
            },
            None => false,
        }
    }
}

} // verus!
