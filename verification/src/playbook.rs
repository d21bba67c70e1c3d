//! The playbook: the stored encodings of bullet attributes, how a lesson is classified,
//! fingerprinted and matched against existing bullets, and how a bullet's maturity
//! moves when it is scored.
use std::collections::hash_map::DefaultHasher;
use std::hash::{BuildHasher, BuildHasherDefault};
use vstd::prelude::*;
use crate::text::{
    chars_of, contains, contains_text, owned, split_whitespace, text_eq, to_lowercase, trim,
    trim_text, unicode_lowercase, words_text,
};
use crate::ids::{inverted_bullet_id, lesson_bullet_id};
use crate::text::{append_decimal, decimal_text};
use crate::types::{
    BeadId, BulletId, BulletMaturity, BulletScope, BulletState, BulletType, FeedbackKind, RunId,
    SessionStatus, Timestamp,
};
use crate::coordinator::nanos_of;

verus! {

// ---------------------------------------------------------------------------
// Stored encodings
// ---------------------------------------------------------------------------

pub open spec fn scope_text(scope: BulletScope) -> Seq<char> {
    match scope {
        BulletScope::Global => "global"@,
        BulletScope::Workspace => "workspace"@,
        BulletScope::Language => "language"@,
        BulletScope::Framework => "framework"@,
        BulletScope::Bead => "bead"@,
    }
}

pub fn scope_str(scope: BulletScope) -> (r: &'static str)
    ensures
        r@ == scope_text(scope),
{
    match scope {
        BulletScope::Global => "global",
        BulletScope::Workspace => "workspace",
        BulletScope::Language => "language",
        BulletScope::Framework => "framework",
        BulletScope::Bead => "bead",
    }
}

/// The scope a stored text names; anything unknown reads as global.
pub open spec fn scope_of_text(t: Seq<char>) -> BulletScope {
    if t == "workspace"@ {
        BulletScope::Workspace
    } else if t == "language"@ {
        BulletScope::Language
    } else if t == "framework"@ {
        BulletScope::Framework
    } else if t == "bead"@ {
        BulletScope::Bead
    } else {
        BulletScope::Global
    }
}

pub fn parse_scope(s: &str) -> (r: BulletScope)
    ensures
        r == scope_of_text(s@),
{
    if text_eq(s, "workspace") {
        BulletScope::Workspace
    } else if text_eq(s, "language") {
        BulletScope::Language
    } else if text_eq(s, "framework") {
        BulletScope::Framework
    } else if text_eq(s, "bead") {
        BulletScope::Bead
    } else {
        BulletScope::Global
    }
}

pub open spec fn bullet_type_text(t: BulletType) -> Seq<char> {
    match t {
        BulletType::Rule => "rule"@,
        BulletType::AntiPattern => "anti_pattern"@,
    }
}

pub fn bullet_type_str(t: BulletType) -> (r: &'static str)
    ensures
        r@ == bullet_type_text(t),
{
    match t {
        BulletType::Rule => "rule",
        BulletType::AntiPattern => "anti_pattern",
    }
}

/// The bullet type a stored text names; anything unknown reads as a rule.
pub open spec fn bullet_type_of_text(t: Seq<char>) -> BulletType {
    if t == "anti_pattern"@ {
        BulletType::AntiPattern
    } else {
        BulletType::Rule
    }
}

pub fn parse_bullet_type(s: &str) -> (r: BulletType)
    ensures
        r == bullet_type_of_text(s@),
{
    if text_eq(s, "anti_pattern") {
        BulletType::AntiPattern
    } else {
        BulletType::Rule
    }
}

pub open spec fn state_text(state: BulletState) -> Seq<char> {
    match state {
        BulletState::Draft => "draft"@,
        BulletState::Active => "active"@,
        BulletState::Retired => "retired"@,
    }
}

pub fn state_str(state: BulletState) -> (r: &'static str)
    ensures
        r@ == state_text(state),
{
    match state {
        BulletState::Draft => "draft",
        BulletState::Active => "active",
        BulletState::Retired => "retired",
    }
}

/// The state a stored text names; anything unknown reads as a draft.
pub open spec fn state_of_text(t: Seq<char>) -> BulletState {
    if t == "active"@ {
        BulletState::Active
    } else if t == "retired"@ {
        BulletState::Retired
    } else {
        BulletState::Draft
    }
}

pub fn parse_state(s: &str) -> (r: BulletState)
    ensures
        r == state_of_text(s@),
{
    if text_eq(s, "active") {
        BulletState::Active
    } else if text_eq(s, "retired") {
        BulletState::Retired
    } else {
        BulletState::Draft
    }
}

pub open spec fn maturity_text(maturity: BulletMaturity) -> Seq<char> {
    match maturity {
        BulletMaturity::Candidate => "candidate"@,
        BulletMaturity::Established => "established"@,
        BulletMaturity::Proven => "proven"@,
        BulletMaturity::Deprecated => "deprecated"@,
    }
}

pub fn maturity_str(maturity: BulletMaturity) -> (r: &'static str)
    ensures
        r@ == maturity_text(maturity),
{
    match maturity {
        BulletMaturity::Candidate => "candidate",
        BulletMaturity::Established => "established",
        BulletMaturity::Proven => "proven",
        BulletMaturity::Deprecated => "deprecated",
    }
}

/// The maturity a stored text names; anything unknown reads as a candidate.
pub open spec fn maturity_of_text(t: Seq<char>) -> BulletMaturity {
    if t == "established"@ {
        BulletMaturity::Established
    } else if t == "proven"@ {
        BulletMaturity::Proven
    } else if t == "deprecated"@ {
        BulletMaturity::Deprecated
    } else {
        BulletMaturity::Candidate
    }
}

pub fn parse_maturity(s: &str) -> (r: BulletMaturity)
    ensures
        r == maturity_of_text(s@),
{
    if text_eq(s, "established") {
        BulletMaturity::Established
    } else if text_eq(s, "proven") {
        BulletMaturity::Proven
    } else if text_eq(s, "deprecated") {
        BulletMaturity::Deprecated
    } else {
        BulletMaturity::Candidate
    }
}

pub open spec fn feedback_kind_text(kind: FeedbackKind) -> Seq<char> {
    match kind {
        FeedbackKind::Helpful => "helpful"@,
        FeedbackKind::Harmful => "harmful"@,
    }
}

pub fn feedback_kind_str(kind: FeedbackKind) -> (r: &'static str)
    ensures
        r@ == feedback_kind_text(kind),
{
    match kind {
        FeedbackKind::Helpful => "helpful",
        FeedbackKind::Harmful => "harmful",
    }
}

/// The feedback kind a stored text names; anything unknown reads as helpful.
pub open spec fn feedback_kind_of_text(t: Seq<char>) -> FeedbackKind {
    if t == "harmful"@ {
        FeedbackKind::Harmful
    } else {
        FeedbackKind::Helpful
    }
}

pub fn parse_feedback_kind(s: &str) -> (r: FeedbackKind)
    ensures
        r == feedback_kind_of_text(s@),
{
    if text_eq(s, "harmful") {
        FeedbackKind::Harmful
    } else {
        FeedbackKind::Helpful
    }
}

/// A stored scope reads back as the scope that was written.
pub proof fn lemma_scope_round_trip(scope: BulletScope)
    ensures
        scope_of_text(scope_text(scope)) == scope,
{
    reveal_strlit("global");
    reveal_strlit("workspace");
    reveal_strlit("language");
    reveal_strlit("framework");
    reveal_strlit("bead");
    assert("global"@[0] != "workspace"@[0]);
    assert("global"@[0] != "language"@[0]);
    assert("global"@[0] != "framework"@[0]);
    assert("global"@[0] != "bead"@[0]);
    assert("language"@[0] != "workspace"@[0]);
    assert("framework"@[0] != "workspace"@[0]);
    assert("framework"@[0] != "language"@[0]);
    assert("bead"@[0] != "workspace"@[0]);
    assert("bead"@[0] != "language"@[0]);
    assert("bead"@[0] != "framework"@[0]);
}

/// A stored bullet type reads back as the type that was written.
pub proof fn lemma_bullet_type_round_trip(t: BulletType)
    ensures
        bullet_type_of_text(bullet_type_text(t)) == t,
{
    reveal_strlit("rule");
    reveal_strlit("anti_pattern");
    assert("rule"@[0] != "anti_pattern"@[0]);
}

/// A stored state reads back as the state that was written.
pub proof fn lemma_state_round_trip(state: BulletState)
    ensures
        state_of_text(state_text(state)) == state,
{
    reveal_strlit("draft");
    reveal_strlit("active");
    reveal_strlit("retired");
    assert("draft"@[0] != "active"@[0]);
    assert("draft"@[0] != "retired"@[0]);
    assert("retired"@[0] != "active"@[0]);
}

/// A stored maturity reads back as the maturity that was written.
pub proof fn lemma_maturity_round_trip(maturity: BulletMaturity)
    ensures
        maturity_of_text(maturity_text(maturity)) == maturity,
{
    reveal_strlit("candidate");
    reveal_strlit("established");
    reveal_strlit("proven");
    reveal_strlit("deprecated");
    assert("candidate"@[0] != "established"@[0]);
    assert("candidate"@[0] != "proven"@[0]);
    assert("candidate"@[0] != "deprecated"@[0]);
    assert("proven"@[0] != "established"@[0]);
    assert("deprecated"@[0] != "established"@[0]);
    assert("deprecated"@[0] != "proven"@[0]);
}

/// A stored feedback kind reads back as the kind that was written.
pub proof fn lemma_feedback_kind_round_trip(kind: FeedbackKind)
    ensures
        feedback_kind_of_text(feedback_kind_text(kind)) == kind,
{
    reveal_strlit("helpful");
    reveal_strlit("harmful");
    assert("helpful"@[1] != "harmful"@[1]);
}

// ---------------------------------------------------------------------------
// Classifying and fingerprinting lessons
// ---------------------------------------------------------------------------

/// The words that mark a lesson as something to avoid.
pub open spec fn avoidance_markers() -> Seq<Seq<char>> {
    seq!["avoid"@, "don't"@, "do not"@, "never"@, "stop"@, "remove"@]
}

/// A lesson is an anti-pattern when its lowercase text contains an avoidance marker,
/// and a rule otherwise.
pub open spec fn bullet_type_for(text: Seq<char>) -> BulletType {
    if exists|k: int| 0 <= k < avoidance_markers().len() && contains_text(
        unicode_lowercase(text),
        #[trigger] avoidance_markers()[k],
    ) {
        BulletType::AntiPattern
    } else {
        BulletType::Rule
    }
}

fn contains_marker(lower: &Vec<char>, marker: &str) -> (r: bool)
    ensures
        r == contains_text(lower@, marker@),
{
    let m = chars_of(marker);
    contains(lower.as_slice(), m.as_slice())
}

pub fn classify_bullet_type(text: &str) -> (r: BulletType)
    ensures
        r == bullet_type_for(text@),
{
    let lower = to_lowercase(text);
    let chars = chars_of(lower.as_str());
    let ghost markers = avoidance_markers();
    let found = contains_marker(&chars, "avoid") || contains_marker(&chars, "don't")
        || contains_marker(&chars, "do not") || contains_marker(&chars, "never")
        || contains_marker(&chars, "stop") || contains_marker(&chars, "remove");
    proof {
        assert(markers[0] == "avoid"@);
        assert(markers[1] == "don't"@);
        assert(markers[2] == "do not"@);
        assert(markers[3] == "never"@);
        assert(markers[4] == "stop"@);
        assert(markers[5] == "remove"@);
        if !found {
            assert forall|k: int| 0 <= k < markers.len() implies !contains_text(
                unicode_lowercase(text@),
                #[trigger] markers[k],
            ) by {}
        }
    }
    if found {
        BulletType::AntiPattern
    } else {
        BulletType::Rule
    }
}

/// The 64-bit hash that std's default hasher gives a text.
pub uninterp spec fn default_str_hash(s: Seq<char>) -> u64;

/// Hashes `s` with `std::collections::hash_map::DefaultHasher` (through `hash_one` of
/// its default builder, which creates the hasher, feeds it the text and finishes it).
/// The contract claims only that the hash depends on the text alone: the hasher starts
/// from fixed keys, though std does not promise the same hashes across releases.
#[verifier::external_body]
fn str_default_hash(s: &str) -> (r: u64)
    ensures
        r == default_str_hash(s@),
{
    BuildHasherDefault::<DefaultHasher>::default().hash_one(s)
}

/// The lowercase hexadecimal digit of `d`.
pub open spec fn hex_digit(d: nat) -> char {
    if d < 10 {
        ((d + 48) as u8) as char
    } else {
        ((d + 87) as u8) as char
    }
}

/// The lowest `width` hexadecimal digits of `n`, most significant first.
pub open spec fn hex_text(n: nat, width: nat) -> Seq<char>
    decreases width,
{
    if width == 0 {
        Seq::empty()
    } else {
        hex_text(n / 16, (width - 1) as nat).push(hex_digit(n % 16))
    }
}

fn hex_digit_exec(d: u64) -> (c: char)
    requires
        d < 16,
    ensures
        c == hex_digit(d as nat),
{
    let table = ['0', '1', '2', '3', '4', '5', '6', '7', '8', '9', 'a', 'b', 'c', 'd', 'e', 'f'];
    let c = table[d as usize];
    assert(c == hex_digit(d as nat)) by {
        assert(table@ == seq!['0', '1', '2', '3', '4', '5', '6', '7', '8', '9', 'a', 'b', 'c', 'd', 'e', 'f']);
    }
    c
}

/// `n` as sixteen lowercase hexadecimal digits (`{:016x}`).
pub fn hex16(n: u64) -> (r: String)
    ensures
        r@ == hex_text(n as nat, 16),
{
    proof {
        lemma_hex_text_len(n as nat, 16);
        assert(pow16(0) == 1);
    }
    let mut digits: Vec<char> = Vec::new();
    let mut rest: u64 = n;
    let mut k: usize = 0;
    while k < 16
        invariant
            k <= 16,
            digits.len() == k,
            hex_text(n as nat, 16).len() == 16,
            forall|j: int| 0 <= j < k ==> #[trigger] digits@[j] == hex_text(n as nat, 16)[15 - j],
            rest as nat == (n as nat) / pow16(k as nat),
        decreases 16 - k,
    {
        proof {
            lemma_hex_text_digit(n as nat, k as nat);
            lemma_pow16_step(n as nat, k as nat);
        }
        digits.push(hex_digit_exec(rest % 16));
        rest = rest / 16;
        k = k + 1;
    }
    let mut out = String::new();
    let mut j: usize = 16;
    while j > 0
        invariant
            j <= 16,
            digits.len() == 16,
            hex_text(n as nat, 16).len() == 16,
            forall|i: int| 0 <= i < 16 ==> #[trigger] digits@[i] == hex_text(n as nat, 16)[15 - i],
            out@ == hex_text(n as nat, 16).subrange(0, 16 - j),
        decreases j,
    {
        crate::text::push_char(&mut out, digits[j - 1]);
        j = j - 1;
        proof {
            lemma_hex_text_len(n as nat, 16);
            assert(out@ =~= hex_text(n as nat, 16).subrange(0, 16 - j));
        }
    }
    proof {
        lemma_hex_text_len(n as nat, 16);
    }
    assert(out@ =~= hex_text(n as nat, 16));
    out
}

pub open spec fn pow16(k: nat) -> nat
    decreases k,
{
    if k == 0 {
        1
    } else {
        16 * pow16((k - 1) as nat)
    }
}

proof fn lemma_hex_text_len(n: nat, width: nat)
    ensures
        hex_text(n, width).len() == width,
    decreases width,
{
    if width > 0 {
        lemma_hex_text_len(n / 16, (width - 1) as nat);
    }
}

proof fn lemma_pow16_positive(k: nat)
    ensures
        pow16(k) > 0,
    decreases k,
{
    if k > 0 {
        lemma_pow16_positive((k - 1) as nat);
    }
}

proof fn lemma_pow16_step(n: nat, k: nat)
    ensures
        n / pow16(k) / 16 == n / pow16(k + 1),
{
    lemma_pow16_positive(k);
    assert(pow16(k + 1) == 16 * pow16(k));
    vstd::arithmetic::div_mod::lemma_div_denominator(n as int, pow16(k) as int, 16);
    vstd::arithmetic::mul::lemma_mul_is_commutative(pow16(k) as int, 16);
}

/// Digit `k` from the right of a `width`-digit rendering is digit `k` of `n`.
proof fn lemma_hex_text_digit(n: nat, k: nat)
    requires
        k < 16,
    ensures
        hex_text(n, 16)[15 - k] == hex_digit((n / pow16(k)) % 16),
{
    lemma_hex_text_digit_general(n, 16, k);
}

proof fn lemma_hex_text_digit_general(n: nat, width: nat, k: nat)
    requires
        k < width,
    ensures
        hex_text(n, width)[width - 1 - k] == hex_digit((n / pow16(k)) % 16),
    decreases width,
{
    lemma_hex_text_len(n, width);
    lemma_hex_text_len(n / 16, (width - 1) as nat);
    if k == 0 {
        assert(pow16(0) == 1);
        assert(n / pow16(0) == n);
    } else {
        lemma_hex_text_digit_general(n / 16, (width - 1) as nat, (k - 1) as nat);
        lemma_pow16_positive((k - 1) as nat);
        assert(pow16(k) == 16 * pow16((k - 1) as nat));
        vstd::arithmetic::div_mod::lemma_div_denominator(n as int, 16, pow16((k - 1) as nat) as int);
    }
}

/// The fingerprint of a bullet's text: the default hash of its trimmed, lowercase form,
/// as sixteen hexadecimal digits.
pub open spec fn content_hash_text(text: Seq<char>) -> Seq<char> {
    hex_text(default_str_hash(unicode_lowercase(trim_text(text))) as nat, 16)
}

pub fn content_hash(text: &str) -> (r: String)
    ensures
        r@ == content_hash_text(text@),
{
    let normalized = to_lowercase(trim(text));
    hex16(str_default_hash(normalized.as_str()))
}

// ---------------------------------------------------------------------------
// Near-duplicate lessons
// ---------------------------------------------------------------------------

/// The distinct whitespace-separated words of a text.
pub open spec fn word_set(s: Seq<char>) -> Set<Seq<char>> {
    words_text(s).to_set()
}

/// Whether two texts share at least three quarters of their distinct words (the
/// Jaccard similarity of their word sets is at least 0.75; two texts without words
/// count as the same).
pub open spec fn near_duplicate(a: Seq<char>, b: Seq<char>) -> bool {
    4 * word_set(a).intersect(word_set(b)).len() >= 3 * word_set(a).union(word_set(b)).len()
}

fn holds_text(items: &Vec<String>, x: &str) -> (r: bool)
    ensures
        r == items.deep_view().contains(x@),
{
    let mut i: usize = 0;
    while i < items.len()
        invariant
            i <= items.len(),
            forall|k: int| 0 <= k < i ==> items.deep_view()[k] != x@,
        decreases items.len() - i,
    {
        if text_eq(items[i].as_str(), x) {
            assert(items.deep_view()[i as int] == x@);
            return true;
        }
        i = i + 1;
    }
    false
}

proof fn lemma_push_contains(s: Seq<Seq<char>>, w: Seq<char>)
    ensures
        forall|x: Seq<char>| #[trigger] s.push(w).contains(x) <==> (s.contains(x) || x == w),
{
    assert forall|x: Seq<char>| #[trigger] s.push(w).contains(x) <==> (s.contains(x) || x == w) by {
        if s.push(w).contains(x) {
            let k = choose|k: int| 0 <= k < s.push(w).len() && s.push(w)[k] == x;
            if k < s.len() {
                assert(s[k] == x);
            }
        }
        if s.contains(x) {
            let k = choose|k: int| 0 <= k < s.len() && s[k] == x;
            assert(s.push(w)[k] == x);
        }
        if x == w {
            assert(s.push(w)[s.len() as int] == x);
        }
    }
}

proof fn lemma_push_no_duplicates(s: Seq<Seq<char>>, w: Seq<char>)
    requires
        s.no_duplicates(),
        !s.contains(w),
    ensures
        s.push(w).no_duplicates(),
{
    let t = s.push(w);
    assert forall|i: int, j: int| 0 <= i < t.len() && 0 <= j < t.len() && i != j implies t[i] != t[j] by {
        if i < s.len() && j < s.len() {
            assert(t[i] == s[i] && t[j] == s[j]);
        } else if i < s.len() {
            assert(t[i] == s[i]);
        } else if j < s.len() {
            assert(t[j] == s[j]);
        }
    }
}

pub fn is_near_duplicate(a: &str, b: &str) -> (r: bool)
    ensures
        r == near_duplicate(a@, b@),
{
    let wa = split_whitespace(a);
    let wb = split_whitespace(b);
    let ghost sa = wa.deep_view();
    let ghost sb = wb.deep_view();
    let mut union: Vec<String> = Vec::new();
    let mut common: Vec<String> = Vec::new();
    let mut i: usize = 0;
    assert(union.deep_view() =~= Seq::<Seq<char>>::empty());
    assert(common.deep_view() =~= Seq::<Seq<char>>::empty());
    while i < wa.len()
        invariant
            i <= wa.len(),
            wa.deep_view() == sa,
            wb.deep_view() == sb,
            union.deep_view().no_duplicates(),
            common.deep_view().no_duplicates(),
            forall|x: Seq<char>| #[trigger] union.deep_view().contains(x) <==> sa.subrange(0, i as int).contains(x),
            forall|x: Seq<char>| #[trigger] common.deep_view().contains(x) <==> (sa.subrange(0, i as int).contains(x) && sb.contains(x)),
        decreases wa.len() - i,
    {
        let w = &wa[i];
        let ghost prefix = sa.subrange(0, i as int);
        let ghost next = sa.subrange(0, i + 1);
        assert(w@ == sa[i as int]);
        assert(next =~= prefix.push(w@));
        proof {
            lemma_push_contains(prefix, w@);
        }
        let ghost before_union = union.deep_view();
        let ghost before_common = common.deep_view();
        assert(forall|x: Seq<char>| #[trigger] before_common.contains(x) <==> (prefix.contains(x) && sb.contains(x)));
        assert(forall|x: Seq<char>| #[trigger] before_union.contains(x) <==> prefix.contains(x));
        if !holds_text(&union, w.as_str()) {
            let copy = w.clone();
            union.push(copy);
            assert(union.deep_view() =~= before_union.push(w@));
            proof {
                lemma_push_contains(before_union, w@);
                lemma_push_no_duplicates(before_union, w@);
            }
            if holds_text(&wb, w.as_str()) {
                let copy = w.clone();
                common.push(copy);
                assert(common.deep_view() =~= before_common.push(w@));
                proof {
                    lemma_push_contains(before_common, w@);
                    lemma_push_no_duplicates(before_common, w@);
                }
            }
        }
        assert forall|x: Seq<char>| common.deep_view().contains(x) <==> (next.contains(x) && sb.contains(x)) by {
            assert(before_common.contains(x) <==> (prefix.contains(x) && sb.contains(x)));
            assert(before_union.contains(x) <==> prefix.contains(x));
        }
        i = i + 1;
    }
    assert(sa.subrange(0, wa.len() as int) =~= sa);
    let mut j: usize = 0;
    assert(sb.subrange(0, 0) =~= Seq::<Seq<char>>::empty());
    while j < wb.len()
        invariant
            j <= wb.len(),
            wa.deep_view() == sa,
            wb.deep_view() == sb,
            union.deep_view().no_duplicates(),
            forall|x: Seq<char>| union.deep_view().contains(x) <==> (sa.contains(x) || sb.subrange(0, j as int).contains(x)),
        decreases wb.len() - j,
    {
        let w = &wb[j];
        let ghost prefix = sb.subrange(0, j as int);
        let ghost next = sb.subrange(0, j + 1);
        assert(w@ == sb[j as int]);
        assert(next =~= prefix.push(w@));
        proof {
            lemma_push_contains(prefix, w@);
        }
        let ghost before_union = union.deep_view();
        if !holds_text(&union, w.as_str()) {
            let copy = w.clone();
            union.push(copy);
            assert(union.deep_view() =~= before_union.push(w@));
            proof {
                lemma_push_contains(before_union, w@);
                lemma_push_no_duplicates(before_union, w@);
            }
        }
        assert forall|x: Seq<char>| union.deep_view().contains(x) <==> (sa.contains(x) || next.contains(x)) by {
            assert(before_union.contains(x) <==> (sa.contains(x) || prefix.contains(x)));
        }
        j = j + 1;
    }
    assert(sb.subrange(0, wb.len() as int) =~= sb);
    proof {
        let u = union.deep_view();
        let c = common.deep_view();
        assert(u.to_set() =~= word_set(a@).union(word_set(b@)));
        assert(c.to_set() =~= word_set(a@).intersect(word_set(b@)));
        u.unique_seq_to_set();
        c.unique_seq_to_set();
    }
    4 * (common.len() as u128) >= 3 * (union.len() as u128)
}

// ---------------------------------------------------------------------------
// Ingesting lessons
// ---------------------------------------------------------------------------

/// The text of a lesson as it is stored: trimmed; `None` for a blank lesson, which is
/// skipped.
pub fn lesson_text(lesson: &str) -> (r: Option<String>)
    ensures
        (r is None) == (trim_text(lesson@).len() == 0),
        r matches Some(s) ==> s@ == trim_text(lesson@),
{
    let trimmed = trim(lesson);
    if trimmed.unicode_len() == 0 {
        None
    } else {
        Some(owned(trimmed))
    }
}

/// What ingesting one lesson does to the playbook.
#[derive(Debug, Clone, PartialEq, Eq)]
pub enum LessonAction {
    /// Record helpful feedback on an existing bullet that says the same thing.
    Reinforce { bullet_id: BulletId },
    /// Add the lesson as a new draft bullet.
    Create { bullet_id: BulletId, text: String, bullet_type: BulletType },
}

/// The count of bullets an ingestion has created, after one more lesson: one more when
/// the lesson became a new bullet, the same when it reinforced an existing one.
pub fn created_after(action: &LessonAction, created: u64) -> (r: u64)
    requires
        created < u64::MAX,
    ensures
        r == if action is Create {
            created + 1
        } else {
            created as int
        },
{
    match action {
        LessonAction::Create { .. } => created + 1,
        LessonAction::Reinforce { .. } => created,
    }
}

/// The first existing bullet whose text is a near duplicate of `text`.
pub open spec fn first_near_duplicate(text: Seq<char>, existing: Seq<(BulletId, String)>) -> Option<int>
    decreases existing.len(),
{
    if existing.len() == 0 {
        None
    } else {
        match first_near_duplicate(text, existing.drop_last()) {
            Some(k) => Some(k),
            None => if near_duplicate(text, existing.last().1@) {
                Some(existing.len() - 1)
            } else {
                None
            },
        }
    }
}

/// What a lesson with stored text `text` does: reinforce the bullet with the same
/// fingerprint if there is one, else the first near duplicate among `existing`, else
/// create bullet `blt-<run>-<created>`.
pub open spec fn lesson_outcome(
    text: Seq<char>,
    hash_match: Option<BulletId>,
    existing: Seq<(BulletId, String)>,
    run_id: Seq<char>,
    created: nat,
) -> (Option<BulletId>, Seq<char>, BulletType) {
    match hash_match {
        Some(id) => (Some(id), Seq::empty(), BulletType::Rule),
        None => match first_near_duplicate(text, existing) {
            Some(k) => (Some(existing[k].0), Seq::empty(), BulletType::Rule),
            None => (None, "blt-"@ + run_id + "-"@ + decimal_text(created), bullet_type_for(text)),
        },
    }
}

proof fn lemma_first_near_duplicate_prefix(text: Seq<char>, existing: Seq<(BulletId, String)>, i: int)
    requires
        0 <= i < existing.len(),
        first_near_duplicate(text, existing.subrange(0, i)) is None,
    ensures
        first_near_duplicate(text, existing.subrange(0, i + 1)) == if near_duplicate(text, existing[i].1@) {
            Some(i)
        } else {
            None::<int>
        },
{
    let next = existing.subrange(0, i + 1);
    assert(next.drop_last() =~= existing.subrange(0, i));
    assert(next.last() == existing[i]);
}

proof fn lemma_first_near_duplicate_extends(text: Seq<char>, existing: Seq<(BulletId, String)>, i: int, k: int)
    requires
        0 <= k <= i <= existing.len(),
        first_near_duplicate(text, existing.subrange(0, k)) is None,
        k < existing.len() ==> near_duplicate(text, existing[k].1@),
        k < i,
    ensures
        first_near_duplicate(text, existing.subrange(0, i)) == Some(k),
    decreases i - k,
{
    let pre = existing.subrange(0, i);
    if i == k + 1 {
        lemma_first_near_duplicate_prefix(text, existing, k);
    } else {
        lemma_first_near_duplicate_extends(text, existing, i - 1, k);
        assert(pre.drop_last() =~= existing.subrange(0, i - 1));
    }
}

/// `hash_match` is the bullet that already carries the lesson's fingerprint, if any;
/// `existing` lists the bullets that are not retired, in storage order; `created`
/// counts the bullets this ingestion has created so far.
pub fn lesson_action(
    text: &str,
    hash_match: Option<BulletId>,
    existing: &Vec<(BulletId, String)>,
    run_id: &RunId,
    created: u64,
) -> (r: LessonAction)
    ensures
        ({
            let (target, new_id, kind) = lesson_outcome(text@, hash_match, existing@, run_id@, created as nat);
            match r {
                LessonAction::Reinforce { bullet_id } => target == Some(bullet_id),
                LessonAction::Create { bullet_id, text: stored, bullet_type } => {
                    &&& target is None
                    &&& bullet_id@ == new_id
                    &&& stored@ == text@
                    &&& bullet_type == kind
                },
            }
        }),
{
    if let Some(id) = hash_match {
        return LessonAction::Reinforce { bullet_id: id };
    }
    let mut i: usize = 0;
    while i < existing.len()
        invariant
            i <= existing.len(),
            hash_match is None,
            first_near_duplicate(text@, existing@.subrange(0, i as int)) is None,
        decreases existing.len() - i,
    {
        proof {
            lemma_first_near_duplicate_prefix(text@, existing@, i as int);
        }
        if is_near_duplicate(text, existing[i].1.as_str()) {
            proof {
                lemma_first_near_duplicate_extends(text@, existing@, existing.len() as int, i as int);
                assert(existing@.subrange(0, existing.len() as int) =~= existing@);
            }
            return LessonAction::Reinforce { bullet_id: existing[i].0.duplicate() };
        }
        i = i + 1;
    }
    assert(existing@.subrange(0, existing.len() as int) =~= existing@);
    LessonAction::Create {
        bullet_id: lesson_bullet_id(run_id, created),
        text: owned(text),
        bullet_type: classify_bullet_type(text),
    }
}

/// `ingested from bead <bead> run <run>`, the reason logged for a new bullet.
pub fn ingestion_reason(bead_id: &BeadId, run_id: &RunId) -> (r: String)
    ensures
        r@ == "ingested from bead "@ + bead_id@ + " run "@ + run_id@,
{
    let mut s = owned("ingested from bead ");
    s.append(bead_id.as_str());
    s.append(" run ");
    s.append(run_id.as_str());
    s
}

// ---------------------------------------------------------------------------
// Scoring: maturity and state
// ---------------------------------------------------------------------------

/// The comparisons of a bullet's decayed score and harmful ratio against the scoring
/// thresholds, made where the score is computed.
#[derive(Debug, Clone, Copy, PartialEq, Eq, Structural)]
pub struct ScoreSignals {
    /// The harmful ratio exceeds the deprecation threshold.
    pub harmful_ratio_exceeded: bool,
    /// The score lies below the pruning threshold.
    pub below_prune_threshold: bool,
    /// The score exceeds the threshold for promotion to established.
    pub above_promote_threshold: bool,
    /// The score exceeds the threshold for promotion to proven.
    pub above_proven_threshold: bool,
    /// The score is below zero.
    pub negative: bool,
}

/// The evidence thresholds of the scoring pass.
#[derive(Debug, Clone, Copy, PartialEq, Eq, Structural)]
pub struct MaturityPolicy {
    pub min_events_for_promotion: u32,
    pub staleness_days: u32,
}

/// The maturity a bullet should have: deprecated when harmful, deeply negative or a
/// stale draft without evidence; unchanged without enough evidence; otherwise promoted
/// or demoted by one level as its score warrants.
pub open spec fn next_maturity(
    maturity: BulletMaturity,
    state: BulletState,
    total_events: nat,
    age_days: nat,
    policy: MaturityPolicy,
    signals: ScoreSignals,
) -> BulletMaturity {
    if signals.harmful_ratio_exceeded || signals.below_prune_threshold {
        BulletMaturity::Deprecated
    } else if state is Draft && age_days > policy.staleness_days && total_events
        < policy.min_events_for_promotion {
        BulletMaturity::Deprecated
    } else if total_events < policy.min_events_for_promotion {
        maturity
    } else {
        match maturity {
            BulletMaturity::Candidate => if signals.above_promote_threshold {
                BulletMaturity::Established
            } else {
                BulletMaturity::Candidate
            },
            BulletMaturity::Established => if signals.above_proven_threshold {
                BulletMaturity::Proven
            } else if signals.negative {
                BulletMaturity::Candidate
            } else {
                BulletMaturity::Established
            },
            BulletMaturity::Proven => if signals.negative {
                BulletMaturity::Established
            } else {
                BulletMaturity::Proven
            },
            BulletMaturity::Deprecated => BulletMaturity::Deprecated,
        }
    }
}

/// `helpful_count + harmful_count` is the bullet's evidence; `age_days` its age.
pub fn target_maturity(
    maturity: BulletMaturity,
    state: BulletState,
    helpful_count: u32,
    harmful_count: u32,
    age_days: u32,
    policy: MaturityPolicy,
    signals: ScoreSignals,
) -> (r: BulletMaturity)
    requires
        helpful_count + harmful_count <= u32::MAX,
    ensures
        r == next_maturity(maturity, state, (helpful_count + harmful_count) as nat, age_days as nat, policy, signals),
{
    let total_events = helpful_count + harmful_count;
    if signals.harmful_ratio_exceeded {
        return BulletMaturity::Deprecated;
    }
    if signals.below_prune_threshold {
        return BulletMaturity::Deprecated;
    }
    if state == BulletState::Draft {
        if age_days > policy.staleness_days && total_events < policy.min_events_for_promotion {
            return BulletMaturity::Deprecated;
        }
    }
    if total_events < policy.min_events_for_promotion {
        return maturity;
    }
    match maturity {
        BulletMaturity::Candidate => if signals.above_promote_threshold {
            BulletMaturity::Established
        } else {
            BulletMaturity::Candidate
        },
        BulletMaturity::Established => if signals.above_proven_threshold {
            BulletMaturity::Proven
        } else if signals.negative {
            BulletMaturity::Candidate
        } else {
            BulletMaturity::Established
        },
        BulletMaturity::Proven => if signals.negative {
            BulletMaturity::Established
        } else {
            BulletMaturity::Proven
        },
        BulletMaturity::Deprecated => BulletMaturity::Deprecated,
    }
}

/// The order in which maturities are declared: candidate, established, proven,
/// deprecated.
pub open spec fn maturity_rank(m: BulletMaturity) -> nat {
    match m {
        BulletMaturity::Candidate => 0,
        BulletMaturity::Established => 1,
        BulletMaturity::Proven => 2,
        BulletMaturity::Deprecated => 3,
    }
}

fn rank_of(m: BulletMaturity) -> (r: u8)
    ensures
        r == maturity_rank(m),
{
    match m {
        BulletMaturity::Candidate => 0,
        BulletMaturity::Established => 1,
        BulletMaturity::Proven => 2,
        BulletMaturity::Deprecated => 3,
    }
}

/// The state that goes with a new maturity: deprecated bullets retire, drafts that
/// reach established or proven become active, others keep their state.
pub open spec fn state_after(state: BulletState, new_maturity: BulletMaturity) -> BulletState {
    if new_maturity is Deprecated {
        BulletState::Retired
    } else if state is Draft && maturity_rank(new_maturity) >= 1 {
        BulletState::Active
    } else {
        state
    }
}

/// What the scoring pass does with one bullet.
#[derive(Debug, Clone, Copy, PartialEq, Eq)]
pub struct ScoringChange {
    pub new_state: BulletState,
    pub new_maturity: BulletMaturity,
    /// Whether the state or the maturity changes, so the bullet is written back.
    pub changed: bool,
    /// Whether the maturity changes; the pass counts these.
    pub maturity_changed: bool,
    /// Whether the bullet is deprecated (and retired).
    pub deprecate: bool,
    /// Whether a deprecated rule is replaced by an anti-pattern: it had enough evidence.
    pub invert_to_anti_pattern: bool,
    /// The curation action logged for a change: `promote` when the maturity rises in
    /// declaration order, `demote` otherwise.
    pub curation_action: Option<&'static str>,
}

pub fn scoring_change(
    bullet_type: BulletType,
    state: BulletState,
    maturity: BulletMaturity,
    total_events: u64,
    min_events_for_promotion: u32,
    new_maturity: BulletMaturity,
) -> (r: ScoringChange)
    ensures
        r.new_maturity == new_maturity,
        r.new_state == state_after(state, new_maturity),
        r.changed == (new_maturity != maturity || r.new_state != state),
        r.maturity_changed == (new_maturity != maturity),
        r.deprecate == (r.changed && new_maturity is Deprecated),
        r.invert_to_anti_pattern == (r.deprecate && bullet_type is Rule && total_events
            >= min_events_for_promotion),
        r.changed ==> (r.curation_action matches Some(a) && a@ == (if maturity_rank(new_maturity)
            > maturity_rank(maturity) {
            "promote"@
        } else {
            "demote"@
        })),
        !r.changed ==> r.curation_action is None,
{
    let new_state = if new_maturity == BulletMaturity::Deprecated {
        BulletState::Retired
    } else if state == BulletState::Draft && rank_of(new_maturity) >= 1 {
        BulletState::Active
    } else {
        state
    };
    let changed = new_maturity != maturity || new_state != state;
    let deprecate = changed && new_maturity == BulletMaturity::Deprecated;
    let invert_to_anti_pattern = deprecate && bullet_type == BulletType::Rule && total_events
        >= min_events_for_promotion as u64;
    let curation_action = if changed {
        if rank_of(new_maturity) > rank_of(maturity) {
            Some("promote")
        } else {
            Some("demote")
        }
    } else {
        None
    };
    let maturity_changed = new_maturity != maturity;
    ScoringChange { new_state, new_maturity, changed, maturity_changed, deprecate, invert_to_anti_pattern, curation_action }
}

/// How many of a pass's changes move a bullet's maturity.
pub open spec fn maturity_change_count(changes: Seq<ScoringChange>) -> nat
    decreases changes.len(),
{
    if changes.len() == 0 {
        0
    } else {
        maturity_change_count(changes.drop_last()) + if changes.last().maturity_changed {
            1nat
        } else {
            0
        }
    }
}

/// What a scoring pass reports: the number of bullets whose maturity changed.
pub fn changed_maturity_count(changes: &Vec<ScoringChange>) -> (r: usize)
    ensures
        r == maturity_change_count(changes@),
{
    let mut count: usize = 0;
    let mut i: usize = 0;
    while i < changes.len()
        invariant
            i <= changes.len(),
            count == maturity_change_count(changes@.subrange(0, i as int)),
            count <= i,
        decreases changes.len() - i,
    {
        assert(changes@.subrange(0, i + 1).drop_last() =~= changes@.subrange(0, i as int));
        if changes[i].maturity_changed {
            count = count + 1;
        }
        i = i + 1;
    }
    assert(changes@.subrange(0, changes.len() as int) =~= changes@);
    count
}

/// The anti-pattern that replaces an inverted rule: its identifier, its text
/// `AVOID: <text>` and its category `<category>_inverted`.
pub fn inverted_rule(bullet_id: &BulletId, text: &str, category: &str) -> (r: (BulletId, String, String))
    ensures
        r.0@ == bullet_id@ + "-inv"@,
        r.1@ == "AVOID: "@ + text@,
        r.2@ == category@ + "_inverted"@,
{
    let mut anti = owned("AVOID: ");
    anti.append(text);
    let mut cat = owned(category);
    cat.append("_inverted");
    (inverted_bullet_id(bullet_id), anti, cat)
}

/// A deprecated bullet always retires, and only a non-retired bullet can be deprecated
/// by a pass.
pub proof fn lemma_deprecation_retires(state: BulletState, maturity: BulletMaturity)
    requires
        !(state is Retired),
    ensures
        state_after(state, BulletMaturity::Deprecated) is Retired,
{
}

/// Without enough evidence a bullet is never promoted or demoted: it keeps its maturity
/// unless it is deprecated.
pub proof fn lemma_no_promotion_without_evidence(
    maturity: BulletMaturity,
    state: BulletState,
    total_events: nat,
    age_days: nat,
    policy: MaturityPolicy,
    signals: ScoreSignals,
)
    requires
        total_events < policy.min_events_for_promotion,
    ensures
        next_maturity(maturity, state, total_events, age_days, policy, signals) == maturity
            || next_maturity(maturity, state, total_events, age_days, policy, signals) is Deprecated,
{
}

/// How the score moves a bullet that has enough evidence and no deprecation signal: a
/// candidate above the promotion threshold becomes established; an established bullet
/// above the proven threshold becomes proven, and one with a negative score falls back
/// to candidate; a proven bullet with a negative score falls back to established;
/// otherwise the maturity stays. A harmful ratio past its threshold or a score below the
/// pruning threshold deprecates any bullet.
pub proof fn lemma_score_moves_maturity(
    maturity: BulletMaturity,
    state: BulletState,
    total_events: nat,
    age_days: nat,
    policy: MaturityPolicy,
    signals: ScoreSignals,
)
    ensures
        signals.harmful_ratio_exceeded || signals.below_prune_threshold ==> next_maturity(
            maturity,
            state,
            total_events,
            age_days,
            policy,
            signals,
        ) == BulletMaturity::Deprecated,
        ({
            let next = next_maturity(maturity, state, total_events, age_days, policy, signals);
            (total_events >= policy.min_events_for_promotion && !signals.harmful_ratio_exceeded
                && !signals.below_prune_threshold) ==> {
                &&& maturity == BulletMaturity::Candidate ==> next == (if signals.above_promote_threshold {
                    BulletMaturity::Established
                } else {
                    BulletMaturity::Candidate
                })
                &&& (maturity == BulletMaturity::Established && signals.above_proven_threshold) ==> next
                    == BulletMaturity::Proven
                &&& (maturity == BulletMaturity::Established && !signals.above_proven_threshold
                    && signals.negative) ==> next == BulletMaturity::Candidate
                &&& (maturity == BulletMaturity::Established && !signals.above_proven_threshold
                    && !signals.negative) ==> next == BulletMaturity::Established
                &&& maturity == BulletMaturity::Proven ==> next == (if signals.negative {
                    BulletMaturity::Established
                } else {
                    BulletMaturity::Proven
                })
                &&& maturity == BulletMaturity::Deprecated ==> next == BulletMaturity::Deprecated
            }
        }),
        (!signals.harmful_ratio_exceeded && !signals.below_prune_threshold && total_events
            < policy.min_events_for_promotion) ==> next_maturity(maturity, state, total_events, age_days, policy, signals)
            == (if state == BulletState::Draft && age_days > policy.staleness_days {
            BulletMaturity::Deprecated
        } else {
            maturity
        }),
{
}

/// Short of deprecation, a pass moves a bullet at most one level, and a draft that
/// reaches established or proven becomes active.
pub proof fn lemma_maturity_moves_one_level(
    maturity: BulletMaturity,
    state: BulletState,
    total_events: nat,
    age_days: nat,
    policy: MaturityPolicy,
    signals: ScoreSignals,
)
    ensures
        ({
            let next = next_maturity(maturity, state, total_events, age_days, policy, signals);
            &&& !(next is Deprecated) ==> maturity_rank(next) <= maturity_rank(maturity) + 1
                && maturity_rank(maturity) <= maturity_rank(next) + 1
            &&& (state is Draft && (next is Established || next is Proven)) ==> state_after(state, next) is Active
        }),
{
}

// ---------------------------------------------------------------------------
// Implicit feedback from a session's diary
// ---------------------------------------------------------------------------

/// What a finished session tells about the playbook bullets it used.
#[derive(Debug, Clone)]
pub struct DiaryEntry {
    pub session_id: String,
    pub bead_id: Option<BeadId>,
    pub outcome: SessionStatus,
    pub duration_secs: u64,
    pub error_count: u32,
    pub had_retries: bool,
}

pub open spec fn clamp_tenths(v: int) -> int {
    if v < 0 {
        0
    } else if v > 20 {
        20
    } else {
        v
    }
}

/// The helpful weight of a session, in tenths, capped at two whole points: a completed
/// session counts fully, a checkpointed or timed-out one a little, a short one more.
pub open spec fn helpful_tenths(outcome: SessionStatus, duration_secs: u64) -> int {
    clamp_tenths(
        match outcome {
            SessionStatus::Completed => 10int,
            SessionStatus::Checkpointed | SessionStatus::TimedOut => 3int,
            _ => 0int,
        } + if duration_secs < 600 {
            5int
        } else {
            0int
        },
    )
}

/// The harmful weight of a session, in tenths, capped at two whole points: crashes and
/// unknown failures count fully, checkpoints and timeouts a little, and long sessions,
/// errors (two tenths each, at most five) and retries add to it.
pub open spec fn harmful_tenths(outcome: SessionStatus, duration_secs: u64, error_count: u32, had_retries: bool) -> int {
    clamp_tenths(
        match outcome {
            SessionStatus::Crashed | SessionStatus::UnknownFailure => 10int,
            SessionStatus::Checkpointed | SessionStatus::TimedOut => 3int,
            _ => 0int,
        } + (if duration_secs > 3600 {
            3int
        } else {
            0int
        }) + (if error_count > 0 {
            2 * (if error_count < 5 {
                error_count as int
            } else {
                5int
            })
        } else {
            0int
        }) + if had_retries {
            3int
        } else {
            0int
        },
    )
}

impl DiaryEntry {
    /// The implicit `(helpful, harmful)` weights of the session, in tenths of a point.
    pub fn implicit_feedback_tenths(&self) -> (r: (u32, u32))
        ensures
            r.0 == helpful_tenths(self.outcome, self.duration_secs),
            r.1 == harmful_tenths(self.outcome, self.duration_secs, self.error_count, self.had_retries),
    {
        let mut helpful: u32 = 0;
        let mut harmful: u32 = 0;
        match self.outcome {
            SessionStatus::Completed => {
                helpful = helpful + 10;
            },
            SessionStatus::Crashed | SessionStatus::UnknownFailure => {
                harmful = harmful + 10;
            },
            SessionStatus::Checkpointed | SessionStatus::TimedOut => {
                helpful = helpful + 3;
                harmful = harmful + 3;
            },
            _ => {},
        }
        if self.duration_secs < 600 {
            helpful = helpful + 5;
        }
        if self.duration_secs > 3600 {
            harmful = harmful + 3;
        }
        if self.error_count > 0 {
            let counted = if self.error_count < 5 {
                self.error_count
            } else {
                5
            };
            harmful = harmful + 2 * counted;
        }
        if self.had_retries {
            harmful = harmful + 3;
        }
        let helpful = if helpful > 20 {
            20
        } else {
            helpful
        };
        let harmful = if harmful > 20 {
            20
        } else {
            harmful
        };
        (helpful, harmful)
    }
}

/// How long a session ran, in whole seconds: nothing when it has not ended or ended
/// before it started.
pub open spec fn duration_secs_between(started: Timestamp, ended: Option<Timestamp>) -> int {
    match ended {
        Some(e) => if nanos_of(e) > nanos_of(started) {
            (nanos_of(e) - nanos_of(started)) / 1_000_000_000
        } else {
            0
        },
        None => 0,
    }
}

pub fn session_duration_secs(started: Timestamp, ended: Option<Timestamp>) -> (r: u64)
    requires
        started.nanos < 1_000_000_000,
        ended matches Some(e) ==> e.nanos < 1_000_000_000,
    ensures
        r == duration_secs_between(started, ended),
{
    match ended {
        None => 0,
        Some(e) => {
            let diff: i128 = (e.secs as i128 - started.secs as i128) * 1_000_000_000 + (e.nanos as i128
                - started.nanos as i128);
            if diff > 0 {
                assert(diff / 1_000_000_000 <= u64::MAX) by (nonlinear_arith)
                    requires
                        diff <= u64::MAX as int * 1_000_000_000 + 999_999_999,
                        diff > 0,
                ;
                (diff / 1_000_000_000) as u64
            } else {
                0
            }
        },
    }
}

/// The errors a diary counts: warnings, permission denials and rate-limit markers.
pub fn diary_error_count(warnings: usize, permission_denials: u32, rate_limit_markers: u32) -> (r: u32)
    requires
        (warnings as u32) + permission_denials + rate_limit_markers <= u32::MAX,
    ensures
        r == (warnings as u32) + permission_denials + rate_limit_markers,
{
    warnings as u32 + permission_denials + rate_limit_markers
}

/// `Implicit diary feedback (Duration: <secs>s, Errors: <count>)`, the context of the
/// feedback recorded from a diary.
pub fn diary_feedback_context(duration_secs: u64, error_count: u32) -> (r: String)
    ensures
        r@ == "Implicit diary feedback (Duration: "@ + decimal_text(duration_secs as nat) + "s, Errors: "@
            + decimal_text(error_count as nat) + ")"@,
{
    let mut s = owned("Implicit diary feedback (Duration: ");
    append_decimal(&mut s, duration_secs);
    s.append("s, Errors: ");
    append_decimal(&mut s, error_count as u64);
    s.append(")");
    s
}

} // verus!
