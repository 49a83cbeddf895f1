//! User-defined layouts.
//!
//! A layout file looks like
//!
//! ```toml
//! [meta]
//! id = "my-custom-3set"
//! name = "나만의 세벌식"
//! kind = "sebeolsik"     # dubeolsik | sebeolsik | latin | steno | custom
//!
//! [options]
//! moachigi = true
//!
//! [keys]
//! KeyR = { base = "U+1100", shift = "U+1101" }  # ㄱ / ㄲ
//! KeyK = "U+1161"                               # ㅏ (no shift)
//! ```
//!
//! The host reads the file and hands it over as a [`CustomLayoutFile`];
//! [`build_layout`] validates it. Each key's role (Cho / Jung / Jong) is
//! inferred from the conjoining code-point range. For `kind =
//! "dubeolsik"`, Cho code points are paired with their Jong counterpart
//! so a single base value produces a dual-role consonant.
use vstd::prelude::*;
use super::key::{key_named, keycode_from_name, KeyCode, KeyEvent};
use super::{key_cho_only, key_dual, Layout, LayoutKind, LayoutOutput};
use crate::hangul::compose::{cho_to_jong, spec_cho_to_jong};
use crate::hangul::jamo::{is_cho_cp, is_jong_cp, is_jung_cp, Cho, JamoInput, Jong, Jung};
use crate::text::{chars_of, hex_padded, push_hex_padded, push_str, str_eq, string_of};

verus! {

// ─────────────────────────── File contents ───────────────────────────

/// The `[meta]` table of a layout file.
#[derive(Debug, Clone)]
pub struct CustomLayoutMeta {
    /// Stable identifier.
    pub id: String,
    /// Human-readable name.
    pub name: String,
    /// Layout family name.
    pub kind: String,
}

/// The `[options]` table of a layout file.
#[derive(Debug, Clone, Default)]
pub struct CustomLayoutOptions {
    /// Whether order-independent input is supported.
    pub moachigi: bool,
}

/// One key's binding: a single code point for the base layer, or a base
/// and an optional shift layer.
#[derive(Debug, Clone)]
pub enum RawBinding {
    /// Single code point bound to the base (unshifted) layer.
    Short(String),
    /// Full binding with optional shift layer.
    Full { base: String, shift: Option<String> },
}

/// A layout file as read by the host, keys in file order.
#[derive(Debug, Clone)]
pub struct CustomLayoutFile {
    /// The `[meta]` table.
    pub meta: CustomLayoutMeta,
    /// The `[options]` table.
    pub options: CustomLayoutOptions,
    /// The `[keys]` table: key name and binding.
    pub keys: Vec<(String, RawBinding)>,
}

/// Error returned while loading a custom layout.
#[derive(Debug, Clone, PartialEq, Eq)]
pub enum LoadError {
    /// Underlying I/O failure (the host's message).
    Io(String),
    /// TOML parse error (the parser's message).
    Toml(String),
    /// Semantic validation error (unknown kind, unknown key name,
    /// malformed code point, etc.).
    Validation(String),
}

/// The mathematical content of a [`LoadError`].
pub enum LayoutErrorView {
    Io(Seq<char>),
    Toml(Seq<char>),
    Validation(Seq<char>),
}

impl View for LoadError {
    type V = LayoutErrorView;

    open spec fn view(&self) -> LayoutErrorView {
        match self {
            LoadError::Io(m) => LayoutErrorView::Io(m@),
            LoadError::Toml(m) => LayoutErrorView::Toml(m@),
            LoadError::Validation(m) => LayoutErrorView::Validation(m@),
        }
    }
}

impl LoadError {
    /// Human-readable message: `io error: …`, `toml error: …` or
    /// `validation error: …`.
    pub fn message(&self) -> (r: String)
        ensures
            r@ == (match self@ {
                LayoutErrorView::Io(m) => "io error: "@ + m,
                LayoutErrorView::Toml(m) => "toml error: "@ + m,
                LayoutErrorView::Validation(m) => "validation error: "@ + m,
            }),
    {
        let (prefix, m) = match self {
            LoadError::Io(m) => ("io error: ", m),
            LoadError::Toml(m) => ("toml error: ", m),
            LoadError::Validation(m) => ("validation error: ", m),
        };
        let mut s = string_of(prefix);
        push_str(&mut s, m.as_str());
        s
    }
}

// ──────────────────────── Resolved layout ────────────────────────────

/// The Jamo bound to one key: base layer and optional shift layer.
#[derive(Debug, Clone, Copy, PartialEq, Eq, Structural)]
pub struct LayerBinding {
    /// Unshifted output.
    pub base: JamoInput,
    /// Shifted output, if the key has its own.
    pub shift: Option<JamoInput>,
}

impl LayerBinding {
    /// Both layers carry code points of the right roles.
    pub open spec fn wf(self) -> bool {
        &&& self.base.wf()
        &&& (self.shift matches Some(s) ==> s.wf())
    }
}

/// A user-defined layout. Implements [`Layout`] and can be used alongside
/// the built-in layouts.
#[derive(Debug)]
pub struct CustomLayout {
    id: String,
    name: String,
    kind: LayoutKind,
    moachigi: bool,
    bindings: Vec<(KeyCode, LayerBinding)>,
}

/// The mathematical content of a [`CustomLayout`].
pub struct CustomLayoutView {
    pub id: Seq<char>,
    pub name: Seq<char>,
    pub kind: LayoutKind,
    pub moachigi: bool,
    /// Key bindings in file order; a later binding of a key wins.
    pub bindings: Seq<(KeyCode, LayerBinding)>,
}

impl View for CustomLayout {
    type V = CustomLayoutView;

    closed spec fn view(&self) -> CustomLayoutView {
        CustomLayoutView {
            id: self.id@,
            name: self.name@,
            kind: self.kind,
            moachigi: self.moachigi,
            bindings: self.bindings@,
        }
    }
}

/// Every binding in `b` carries code points of the right roles.
pub open spec fn bindings_wf(b: Seq<(KeyCode, LayerBinding)>) -> bool {
    forall|i: int| 0 <= i < b.len() ==> (#[trigger] b[i]).1.wf()
}

/// The binding of `code` in `b`: the last one given for it.
pub open spec fn binding_of(b: Seq<(KeyCode, LayerBinding)>, code: KeyCode) -> Option<LayerBinding>
    decreases b.len(),
{
    if b.len() == 0 {
        None
    } else if b.last().0 == code {
        Some(b.last().1)
    } else {
        binding_of(b.drop_last(), code)
    }
}

/// What a custom layout produces for `ev`: modified keys and unbound keys
/// pass through; Shift selects the shift layer, falling back to the base.
pub open spec fn custom_map(l: CustomLayoutView, ev: KeyEvent) -> LayoutOutput {
    if !ev.mods.ime_eligible() {
        LayoutOutput::Passthrough
    } else {
        match binding_of(l.bindings, ev.code) {
            Some(b) => LayoutOutput::Jamo(
                if ev.mods.shift {
                    match b.shift {
                        Some(s) => s,
                        None => b.base,
                    }
                } else {
                    b.base
                },
            ),
            None => LayoutOutput::Passthrough,
        }
    }
}

impl CustomLayout {
    #[verifier::type_invariant]
    spec fn bindings_valid(self) -> bool {
        bindings_wf(self.bindings@)
    }

    /// The layout's stable identifier (from `meta.id`).
    pub fn id_str(&self) -> (r: &str)
        ensures
            r@ == self@.id,
    {
        self.id.as_str()
    }

    /// The layout's human-readable name (from `meta.name`).
    pub fn name_str(&self) -> (r: &str)
        ensures
            r@ == self@.name,
    {
        self.name.as_str()
    }

    /// The layout's family.
    pub fn layout_kind(&self) -> (r: LayoutKind)
        ensures
            r == self@.kind,
    {
        self.kind
    }

    /// Whether the file enabled order-independent input.
    pub fn moachigi(&self) -> (r: bool)
        ensures
            r == self@.moachigi,
    {
        self.moachigi
    }

    /// What the layout produces for `ev` (see [`custom_map`]).
    pub fn map_key(&self, ev: &KeyEvent) -> (out: LayoutOutput)
        ensures
            out == custom_map(self@, *ev),
            out.wf(),
    {
        proof {
            use_type_invariant(self);
        }
        if !ev.mods.is_ime_eligible() {
            return LayoutOutput::Passthrough;
        }
        let mut i: usize = self.bindings.len();
        proof {
            assert(self.bindings@.take(i as int) == self.bindings@);
        }
        while i > 0
            invariant
                i <= self.bindings@.len(),
                ev.mods.ime_eligible(),
                bindings_wf(self.bindings@),
                binding_of(self.bindings@, ev.code) == binding_of(self.bindings@.take(i as int), ev.code),
            decreases i,
        {
            let (code, bind) = self.bindings[i - 1];
            proof {
                let pre = self.bindings@.take(i as int);
                assert(pre.last() == self.bindings@[i - 1]);
                assert(pre.drop_last() == self.bindings@.take(i - 1));
                assert(self.bindings@[i - 1].1.wf());
            }
            if code == ev.code {
                let slot = if ev.mods.shift {
                    match bind.shift {
                        Some(s) => s,
                        None => bind.base,
                    }
                } else {
                    bind.base
                };
                return LayoutOutput::Jamo(slot);
            }
            i = i - 1;
        }
        LayoutOutput::Passthrough
    }
}

impl Layout for CustomLayout {
    /// Custom layouts have no `'static` id: this is a stable placeholder;
    /// use [`CustomLayout::id_str`] for the real value.
    fn id(&self) -> (r: &'static str)
        ensures
            r@ == "custom"@,
    {
        "custom"
    }

    fn name(&self) -> (r: &'static str)
        ensures
            r@ == "Custom"@,
    {
        "Custom"
    }

    fn kind(&self) -> (r: LayoutKind)
        ensures
            r == self@.kind,
    {
        self.kind
    }

    fn map(&self, ev: &KeyEvent) -> (out: LayoutOutput)
        ensures
            out == custom_map(self@, *ev),
    {
        self.map_key(ev)
    }

    fn supports_moachigi(&self) -> (r: bool)
        ensures
            r == self@.moachigi,
    {
        self.moachigi
    }
}

// ───────────────────────────── Parsing ───────────────────────────────

/// The value of a hexadecimal digit (either case).
pub open spec fn hex_digit_value(c: char) -> Option<nat> {
    let u = c as u32;
    if 48 <= u && u <= 57 {
        Some((u - 48) as nat)
    } else if 65 <= u && u <= 70 {
        Some((u - 55) as nat)
    } else if 97 <= u && u <= 102 {
        Some((u - 87) as nat)
    } else {
        None
    }
}

/// The number a string of hexadecimal digits denotes (0 for the empty
/// string), or `None` if a character is not a digit.
pub open spec fn hex_number(s: Seq<char>) -> Option<nat>
    decreases s.len(),
{
    if s.len() == 0 {
        Some(0)
    } else {
        match (hex_number(s.drop_last()), hex_digit_value(s.last())) {
            (Some(v), Some(d)) => Some(v * 16 + d),
            _ => None,
        }
    }
}

/// What `u32::from_str_radix(s, 16)` accepts: an optional `+`, then at
/// least one hexadecimal digit, denoting a value that fits in `u32`.
pub open spec fn spec_from_hex(s: Seq<char>) -> Option<u32> {
    let digits = if s.len() > 0 && s[0] == '+' {
        s.drop_first()
    } else {
        s
    };
    if digits.len() == 0 {
        None
    } else {
        match hex_number(digits) {
            Some(v) => if v <= u32::MAX {
                Some(v as u32)
            } else {
                None
            },
            None => None,
        }
    }
}

proof fn lemma_hex_number_prefix(s: Seq<char>, n: int)
    requires
        0 <= n <= s.len(),
    ensures
        hex_number(s.take(n)) is None ==> hex_number(s) is None,
        hex_number(s.take(n)) matches Some(v) ==> (hex_number(s) is None || hex_number(s).unwrap() >= v),
    decreases s.len(),
{
    if n == s.len() {
        assert(s.take(n) == s);
    } else {
        assert(s.drop_last().take(n) == s.take(n));
        lemma_hex_number_prefix(s.drop_last(), n);
    }
}

fn hex_digit_exec(c: char) -> (r: Option<u32>)
    ensures
        match r {
            Some(d) => hex_digit_value(c) == Some(d as nat) && d < 16,
            None => hex_digit_value(c) is None,
        },
{
    let u = c as u32;
    if 48 <= u && u <= 57 {
        Some(u - 48)
    } else if 65 <= u && u <= 70 {
        Some(u - 55)
    } else if 97 <= u && u <= 102 {
        Some(u - 87)
    } else {
        None
    }
}

/// Parse `s` as `u32::from_str_radix(s, 16)` does (see [`spec_from_hex`]).
pub fn parse_hex_u32(s: &[char]) -> (r: Option<u32>)
    ensures
        r == spec_from_hex(s@),
{
    let start: usize = if s.len() > 0 && s[0] == '+' { 1 } else { 0 };
    let ghost digits = if s@.len() > 0 && s@[0] == '+' { s@.drop_first() } else { s@ };
    assert(digits == s@.subrange(start as int, s@.len() as int));
    if start == s.len() {
        return None;
    }
    let mut acc: u64 = 0;
    let mut i: usize = start;
    while i < s.len()
        invariant
            start <= i <= s@.len(),
            digits == s@.subrange(start as int, s@.len() as int),
            digits == (if s@.len() > 0 && s@[0] == '+' { s@.drop_first() } else { s@ }),
            digits.len() > 0,
            hex_number(digits.take(i - start)) == Some(acc as nat),
            acc <= u32::MAX,
        decreases s@.len() - i,
    {
        proof {
            let pre = digits.take(i - start + 1);
            assert(pre.drop_last() == digits.take(i - start));
            assert(pre.last() == s@[i as int]);
        }
        match hex_digit_exec(s[i]) {
            None => {
                proof {
                    lemma_hex_number_prefix(digits, i - start + 1);
                }
                return None;
            },
            Some(d) => {
                acc = acc * 16 + d as u64;
                if acc > 0xFFFF_FFFF {
                    proof {
                        lemma_hex_number_prefix(digits, i - start + 1);
                    }
                    return None;
                }
            },
        }
        i = i + 1;
    }
    proof {
        assert(digits.take(digits.len() as int) == digits);
    }
    Some(acc as u32)
}

/// `format!("{s:?}")`: the string quoted and escaped as Rust's `Debug`
/// writes it.
pub uninterp spec fn debug_str(s: Seq<char>) -> Seq<char>;

/// The standard library's `Debug` formatting of a string slice; its
/// result is named [`debug_str`] of the argument.
#[verifier::external_body]
fn debug_quoted(s: &str) -> (r: String)
    ensures
        r@ == debug_str(s@),
{
    format!("{s:?}")
}

/// A binding value as a code point: `U+XXXX` / `u+XXXX` (hexadecimal),
/// or a single character standing for itself.
pub open spec fn parse_codepoint_spec(s: Seq<char>) -> Result<u32, Seq<char>> {
    if s.len() >= 2 && (s[0] == 'U' || s[0] == 'u') && s[1] == '+' {
        match spec_from_hex(s.skip(2)) {
            Some(v) => Ok(v),
            None => Err("invalid code point: "@ + s),
        }
    } else if s.len() == 0 {
        Err("empty code point"@)
    } else if s.len() > 1 {
        Err("expected single character or \"U+XXXX\", got "@ + debug_str(s))
    } else {
        Ok(s[0] as u32)
    }
}

/// A Cho key: dual-role (with its Jong counterpart, where it has one) in
/// a two-set layout, initial-only otherwise.
pub open spec fn cho_binding_spec(cho: u32, kind: LayoutKind) -> JamoInput {
    if kind == LayoutKind::Dubeolsik {
        match spec_cho_to_jong(cho) {
            Some(jong) => key_dual(cho, jong),
            None => key_cho_only(cho),
        }
    } else {
        key_cho_only(cho)
    }
}

/// A binding value as Jamo: its role comes from the conjoining range of
/// its code point; other code points are rejected.
pub open spec fn parse_binding_spec(value: Seq<char>, kind: LayoutKind) -> Result<JamoInput, Seq<char>> {
    match parse_codepoint_spec(value) {
        Err(m) => Err(m),
        Ok(cp) => if is_jung_cp(cp) {
            Ok(JamoInput::Jung(cp))
        } else if is_cho_cp(cp) {
            Ok(cho_binding_spec(cp, kind))
        } else if is_jong_cp(cp) {
            Ok(JamoInput::Cons { cho: None, jong: Some(cp) })
        } else {
            Err("code point U+"@ + hex_padded(cp as nat, 4) + " is not a conjoining Hangul Jamo"@)
        },
    }
}

/// The layout family a `kind` name denotes.
pub open spec fn layout_kind_named(s: Seq<char>) -> Option<LayoutKind> {
    if s == "dubeolsik"@ {
        Some(LayoutKind::Dubeolsik)
    } else if s == "sebeolsik"@ {
        Some(LayoutKind::Sebeolsik)
    } else if s == "latin"@ {
        Some(LayoutKind::Latin)
    } else if s == "steno"@ {
        Some(LayoutKind::Steno)
    } else if s == "custom"@ {
        Some(LayoutKind::Custom)
    } else {
        None
    }
}

/// The base and shift values of a raw binding.
pub open spec fn binding_parts(b: RawBinding) -> (Seq<char>, Option<Seq<char>>) {
    match b {
        RawBinding::Short(s) => (s@, None),
        RawBinding::Full { base, shift } => (
            base@,
            match shift {
                Some(s) => Some(s@),
                None => None,
            },
        ),
    }
}

/// One `[keys]` entry resolved, or the message of its first problem (the
/// key name, then the base value, then the shift value).
pub open spec fn key_entry_spec(name: Seq<char>, b: RawBinding, kind: LayoutKind) -> Result<(KeyCode, LayerBinding), Seq<char>> {
    match key_named(name) {
        None => Err("unknown physical key: "@ + name),
        Some(code) => {
            let (base, shift) = binding_parts(b);
            match parse_binding_spec(base, kind) {
                Err(m) => Err(m),
                Ok(bj) => match shift {
                    None => Ok((code, LayerBinding { base: bj, shift: None })),
                    Some(sv) => match parse_binding_spec(sv, kind) {
                        Err(m) => Err(m),
                        Ok(sj) => Ok((code, LayerBinding { base: bj, shift: Some(sj) })),
                    },
                },
            }
        },
    }
}

/// All `[keys]` entries resolved in order, or the first problem.
pub open spec fn bindings_spec(keys: Seq<(String, RawBinding)>, kind: LayoutKind) -> Result<Seq<(KeyCode, LayerBinding)>, Seq<char>>
    decreases keys.len(),
{
    if keys.len() == 0 {
        Ok(Seq::empty())
    } else {
        match bindings_spec(keys.drop_last(), kind) {
            Err(m) => Err(m),
            Ok(v) => match key_entry_spec(keys.last().0@, keys.last().1, kind) {
                Err(m) => Err(m),
                Ok(e) => Ok(v.push(e)),
            },
        }
    }
}

/// The layout a file describes, or the message of its first problem (the
/// kind, then the keys in order).
pub open spec fn build_layout_spec(f: CustomLayoutFile) -> Result<CustomLayoutView, Seq<char>> {
    match layout_kind_named(f.meta.kind@) {
        None => Err("unknown layout kind: "@ + f.meta.kind@),
        Some(kind) => match bindings_spec(f.keys@, kind) {
            Err(m) => Err(m),
            Ok(b) => Ok(
                CustomLayoutView {
                    id: f.meta.id@,
                    name: f.meta.name@,
                    kind,
                    moachigi: f.options.moachigi,
                    bindings: b,
                },
            ),
        },
    }
}

fn validation(prefix: &str, rest: &str) -> (r: LoadError)
    ensures
        r@ == LayoutErrorView::Validation(prefix@ + rest@),
{
    let mut m = string_of(prefix);
    push_str(&mut m, rest);
    LoadError::Validation(m)
}

fn parse_kind(s: &str) -> (r: Result<LayoutKind, LoadError>)
    ensures
        match r {
            Ok(k) => layout_kind_named(s@) == Some(k),
            Err(e) => layout_kind_named(s@) is None && e@ == LayoutErrorView::Validation(
                "unknown layout kind: "@ + s@,
            ),
        },
{
    if str_eq(s, "dubeolsik") {
        Ok(LayoutKind::Dubeolsik)
    } else if str_eq(s, "sebeolsik") {
        Ok(LayoutKind::Sebeolsik)
    } else if str_eq(s, "latin") {
        Ok(LayoutKind::Latin)
    } else if str_eq(s, "steno") {
        Ok(LayoutKind::Steno)
    } else if str_eq(s, "custom") {
        Ok(LayoutKind::Custom)
    } else {
        Err(validation("unknown layout kind: ", s))
    }
}

fn parse_codepoint(s: &str) -> (r: Result<u32, LoadError>)
    ensures
        match r {
            Ok(v) => parse_codepoint_spec(s@) == Ok::<u32, Seq<char>>(v),
            Err(e) => exists|m: Seq<char>|
                e@ == LayoutErrorView::Validation(m) && parse_codepoint_spec(s@) == Err::<u32, Seq<char>>(m),
        },
{
    let chars = chars_of(s);
    if chars.len() >= 2 && (chars[0] == 'U' || chars[0] == 'u') && chars[1] == '+' {
        let rest = chars_of(s);
        let mut h: Vec<char> = Vec::new();
        let mut i: usize = 2;
        while i < rest.len()
            invariant
                2 <= i <= rest@.len(),
                rest@ == s@,
                h@ == rest@.subrange(2, i as int),
            decreases rest@.len() - i,
        {
            h.push(rest[i]);
            i = i + 1;
        }
        return match parse_hex_u32(h.as_slice()) {
            Some(v) => Ok(v),
            None => Err(validation("invalid code point: ", s)),
        };
    }
    if chars.len() == 0 {
        return Err(LoadError::Validation(string_of("empty code point")));
    }
    if chars.len() > 1 {
        let mut m = string_of("expected single character or \"U+XXXX\", got ");
        let q = debug_quoted(s);
        push_str(&mut m, q.as_str());
        return Err(LoadError::Validation(m));
    }
    Ok(chars[0] as u32)
}

fn cho_binding(cho: u32, kind: LayoutKind) -> (r: JamoInput)
    ensures
        r == cho_binding_spec(cho, kind),
{
    match kind {
        LayoutKind::Dubeolsik => match cho_to_jong(cho) {
            Some(jong) => JamoInput::cho_dual(cho, jong),
            None => JamoInput::cho_only(cho),
        },
        _ => JamoInput::cho_only(cho),
    }
}

fn parse_binding(value: &str, kind: LayoutKind) -> (r: Result<JamoInput, LoadError>)
    ensures
        match r {
            Ok(j) => parse_binding_spec(value@, kind) == Ok::<JamoInput, Seq<char>>(j) && j.wf(),
            Err(e) => exists|m: Seq<char>|
                e@ == LayoutErrorView::Validation(m) && parse_binding_spec(value@, kind) == Err::<
                    JamoInput,
                    Seq<char>,
                >(m),
        },
{
    let cp = match parse_codepoint(value) {
        Ok(cp) => cp,
        Err(e) => return Err(e),
    };
    if Jung::from_codepoint(cp).is_some() {
        return Ok(JamoInput::vowel(cp));
    }
    if let Some(cho) = Cho::from_codepoint(cp) {
        proof {
            crate::hangul::compose::lemma_tables_stay_in_range(cp, cp);
        }
        return Ok(cho_binding(cho.codepoint(), kind));
    }
    if Jong::from_codepoint(cp).is_some() {
        return Ok(JamoInput::jong_only(cp));
    }
    let mut m = string_of("code point U+");
    push_hex_padded(&mut m, cp, 4);
    push_str(&mut m, " is not a conjoining Hangul Jamo");
    Err(LoadError::Validation(m))
}

/// Parse a [`KeyCode`] from its canonical `KeyboardEvent.code` name (as
/// used in the `[keys]` table). Every key is found by its name
/// ([`crate::layout::key::lemma_key_name_round_trip`]) and only by it
/// ([`crate::layout::key::lemma_only_key_names_parse`]).
pub fn parse_keycode(name: &str) -> (r: Option<KeyCode>)
    ensures
        r == key_named(name@),
{
    keycode_from_name(name)
}

fn key_entry(name: &str, b: &RawBinding, kind: LayoutKind) -> (r: Result<(KeyCode, LayerBinding), LoadError>)
    ensures
        match r {
            Ok(e) => key_entry_spec(name@, *b, kind) == Ok::<(KeyCode, LayerBinding), Seq<char>>(e)
                && e.1.wf(),
            Err(err) => exists|m: Seq<char>|
                err@ == LayoutErrorView::Validation(m) && key_entry_spec(name@, *b, kind) == Err::<
                    (KeyCode, LayerBinding),
                    Seq<char>,
                >(m),
        },
{
    let code = match parse_keycode(name) {
        Some(c) => c,
        None => return Err(validation("unknown physical key: ", name)),
    };
    let (base_str, shift_str) = match b {
        RawBinding::Short(s) => (s, None),
        RawBinding::Full { base, shift } => (base, shift.as_ref()),
    };
    let base = match parse_binding(base_str.as_str(), kind) {
        Ok(j) => j,
        Err(e) => return Err(e),
    };
    let shift = match shift_str {
        None => None,
        Some(s) => match parse_binding(s.as_str(), kind) {
            Ok(j) => Some(j),
            Err(e) => return Err(e),
        },
    };
    Ok((code, LayerBinding { base, shift }))
}

/// Resolve a layout file (see [`build_layout_spec`]).
pub fn build_layout(raw: CustomLayoutFile) -> (r: Result<CustomLayout, LoadError>)
    ensures
        match r {
            Ok(l) => build_layout_spec(raw) == Ok::<CustomLayoutView, Seq<char>>(l@),
            Err(e) => exists|m: Seq<char>|
                e@ == LayoutErrorView::Validation(m) && build_layout_spec(raw) == Err::<
                    CustomLayoutView,
                    Seq<char>,
                >(m),
        },
{
    let kind = match parse_kind(raw.meta.kind.as_str()) {
        Ok(k) => k,
        Err(e) => return Err(e),
    };
    let mut bindings: Vec<(KeyCode, LayerBinding)> = Vec::new();
    let mut i: usize = 0;
    proof {
        assert(raw.keys@.take(0) =~= Seq::<(String, RawBinding)>::empty());
    }
    while i < raw.keys.len()
        invariant
            i <= raw.keys@.len(),
            layout_kind_named(raw.meta.kind@) == Some(kind),
            bindings_spec(raw.keys@.take(i as int), kind) == Ok::<
                Seq<(KeyCode, LayerBinding)>,
                Seq<char>,
            >(bindings@),
            bindings_wf(bindings@),
        decreases raw.keys@.len() - i,
    {
        proof {
            let pre = raw.keys@.take(i + 1);
            assert(pre.drop_last() == raw.keys@.take(i as int));
            assert(pre.last() == raw.keys@[i as int]);
        }
        let (name, b) = &raw.keys[i];
        match key_entry(name.as_str(), b, kind) {
            Ok(e) => {
                let ghost before = bindings@;
                bindings.push(e);
                assert forall|j: int| 0 <= j < bindings@.len() implies (#[trigger] bindings@[j]).1.wf() by {
                    if j < before.len() {
                        assert(bindings@[j] == before[j]);
                    }
                }
            },
            Err(err) => {
                proof {
                    lemma_bindings_prefix_err(raw.keys@, kind, i + 1);
                }
                return Err(err);
            },
        }
        i = i + 1;
    }
    proof {
        assert(raw.keys@.take(raw.keys@.len() as int) == raw.keys@);
    }
    Ok(
        CustomLayout {
            id: raw.meta.id,
            name: raw.meta.name,
            kind,
            moachigi: raw.options.moachigi,
            bindings,
        },
    )
}

proof fn lemma_bindings_prefix_err(keys: Seq<(String, RawBinding)>, kind: LayoutKind, n: int)
    requires
        0 <= n <= keys.len(),
        bindings_spec(keys.take(n), kind) is Err,
    ensures
        bindings_spec(keys, kind) == bindings_spec(keys.take(n), kind),
    decreases keys.len(),
{
    if n == keys.len() {
        assert(keys.take(n) == keys);
    } else {
        assert(keys.drop_last().take(n) == keys.take(n));
        lemma_bindings_prefix_err(keys.drop_last(), kind, n);
    }
}

} // verus!
