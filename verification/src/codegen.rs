//! The instruction table that the decoder was generated from, and the text
//! helpers that turn an operand of the table into the Rust expression that
//! reads or writes it.

use vstd::prelude::*;
use vstd::string::StringExecFns;

verus! {

// ---------------------------------------------------------------------------
// The instruction table
// ---------------------------------------------------------------------------

/// The effect of an instruction on each flag: "-" (kept), "0", "1", or the
/// flag's own letter (set from the result).
#[allow(non_snake_case)]
pub struct Flags {
    pub Z: String,
    pub N: String,
    pub H: String,
    pub C: String,
}

/// One operand: a register, a condition, an immediate kind or an address,
/// read directly (`immediate`) or through memory.
pub struct Operand {
    pub name: String,
    pub immediate: bool,
}

/// The cycles an instruction takes: one count, or two for a conditional
/// instruction (taken, not taken).
pub enum Cycle {
    One(usize),
    Two(usize, usize),
}

/// One entry of the instruction table.
pub struct Instruction {
    pub code: String,
    pub mnemonic: String,
    pub bits: u8,
    pub bytes: u16,
    pub cycles: Vec<u16>,
    pub operands: Vec<Operand>,
    pub immediate: bool,
    pub flags: Flags,
}

/// The whole table: the plain opcodes and those after the 0xCB prefix.
pub struct Instructions {
    pub unprefixed: Vec<Instruction>,
    pub cbprefixed: Vec<Instruction>,
}

/// A failure of the generator, with its message.
pub struct Error(pub String);

// ---------------------------------------------------------------------------
// Text primitives: appending, trimming, numbers, lower case
// ---------------------------------------------------------------------------

/// Append the slice.
fn push_str(s: &mut String, t: &str)
    ensures
        final(s)@ == old(s)@ + t@,
{
    s.append(t);
}

/// Calls `String::push`, which appends the character.
#[verifier::external_body]
fn push_char(s: &mut String, c: char)
    ensures
        final(s)@ == old(s)@.push(c),
{
    s.push(c);
}

/// The characters of Unicode's White_Space property.
pub open spec fn is_white_space(c: char) -> bool {
    let u = c as u32;
    ||| 0x09 <= u <= 0x0D
    ||| u == 0x20
    ||| u == 0x85
    ||| u == 0xA0
    ||| u == 0x1680
    ||| 0x2000 <= u <= 0x200A
    ||| u == 0x2028
    ||| u == 0x2029
    ||| u == 0x202F
    ||| u == 0x205F
    ||| u == 0x3000
}

/// The text without its leading white space.
pub open spec fn trim_start(s: Seq<char>) -> Seq<char>
    decreases s.len(),
{
    if s.len() > 0 && is_white_space(s[0]) {
        trim_start(s.skip(1))
    } else {
        s
    }
}

/// The text without its trailing white space.
pub open spec fn trim_end(s: Seq<char>) -> Seq<char>
    decreases s.len(),
{
    if s.len() > 0 && is_white_space(s.last()) {
        trim_end(s.drop_last())
    } else {
        s
    }
}

/// The text without leading and trailing white space.
pub open spec fn trimmed(s: Seq<char>) -> Seq<char> {
    trim_end(trim_start(s))
}

/// Whether `c` is a White_Space character.
fn white_space(c: char) -> (r: bool)
    ensures
        r == is_white_space(c),
{
    let u = c as u32;
    (0x09 <= u && u <= 0x0D) || u == 0x20 || u == 0x85 || u == 0xA0 || u == 0x1680 || (0x2000 <= u
        && u <= 0x200A) || u == 0x2028 || u == 0x2029 || u == 0x202F || u == 0x205F || u == 0x3000
}

/// The text without leading and trailing White_Space characters, as
/// `str::trim` gives it.
fn trim(s: &str) -> (r: &str)
    ensures
        r@ == trimmed(s@),
{
    let n = s.unicode_len();
    let mut a: usize = 0;
    assert(s@.skip(0) =~= s@);
    while a < n && white_space(s.get_char(a))
        invariant
            a <= n,
            n == s@.len(),
            trim_start(s@) == trim_start(s@.skip(a as int)),
        decreases n - a,
    {
        assert(s@.skip(a as int).skip(1) =~= s@.skip(a + 1));
        a = a + 1;
    }
    assert(trim_start(s@) == s@.subrange(a as int, n as int)) by {
        assert(s@.skip(a as int) =~= s@.subrange(a as int, n as int));
    }
    let mut b: usize = n;
    while b > a && white_space(s.get_char(b - 1))
        invariant
            a <= b <= n,
            n == s@.len(),
            trimmed(s@) == trim_end(s@.subrange(a as int, b as int)),
        decreases b,
    {
        assert(s@.subrange(a as int, b as int).drop_last() =~= s@.subrange(a as int, b - 1));
        b = b - 1;
    }
    s.substring_char(a, b)
}

/// An ASCII decimal digit.
pub open spec fn is_digit(c: char) -> bool {
    '0' <= c <= '9'
}

/// The number that a string of decimal digits writes.
pub open spec fn digits_value(s: Seq<char>) -> nat
    decreases s.len(),
{
    if s.len() == 0 {
        0
    } else {
        digits_value(s.drop_last()) * 10 + ((s.last() as u32) - 48) as nat
    }
}

/// The digits of an unsigned number's text: after an optional '+'.
pub open spec fn number_digits(s: Seq<char>) -> Seq<char> {
    if s.len() > 0 && s[0] == '+' {
        s.skip(1)
    } else {
        s
    }
}

/// Whether the text is a `usize` as `str::parse` reads one: an optional
/// '+', then at least one decimal digit and nothing else, of a value that
/// fits.
pub open spec fn is_usize_text(s: Seq<char>) -> bool {
    let d = number_digits(s);
    &&& d.len() > 0
    &&& forall|i: int| 0 <= i < d.len() ==> is_digit(#[trigger] d[i])
    &&& digits_value(d) <= usize::MAX
}

/// A string of digits is worth at least what any of its prefixes is.
proof fn lemma_digits_value_prefix(d: Seq<char>, k: int)
    requires
        0 <= k <= d.len(),
        forall|i: int| 0 <= i < d.len() ==> is_digit(#[trigger] d[i]),
    ensures
        digits_value(d.subrange(0, k)) <= digits_value(d),
    decreases d.len(),
{
    if k < d.len() {
        let e = d.drop_last();
        assert(e.subrange(0, k) =~= d.subrange(0, k));
        assert forall|i: int| 0 <= i < e.len() implies is_digit(#[trigger] e[i]) by {
            assert(e[i] == d[i]);
        }
        lemma_digits_value_prefix(e, k);
    } else {
        assert(d.subrange(0, k) =~= d);
    }
}

/// The `usize` that the text writes, as `str::parse::<usize>` reads it: an
/// optional '+' and then decimal digits only, failing when the value does
/// not fit.
fn parse_usize(s: &str) -> (r: Option<usize>)
    ensures
        r is Some <==> is_usize_text(s@),
        r matches Some(v) ==> v == digits_value(number_digits(s@)),
{
    let n = s.unicode_len();
    let start: usize = if n > 0 && s.get_char(0) == '+' {
        1
    } else {
        0
    };
    let ghost d = number_digits(s@);
    assert(d =~= s@.skip(start as int));
    if start == n {
        return None;
    }
    let mut i: usize = start;
    while i < n
        invariant
            start <= i <= n,
            n == s@.len(),
            d == number_digits(s@),
            d == s@.skip(start as int),
            d.len() == n - start,
            forall|j: int| 0 <= j < i - start ==> is_digit(#[trigger] d[j]),
        decreases n - i,
    {
        let c = s.get_char(i);
        assert(d[i - start] == c);
        if !('0' <= c && c <= '9') {
            assert(!is_digit(d[i - start]));
            return None;
        }
        i = i + 1;
    }
    let mut acc: usize = 0;
    let mut i: usize = start;
    while i < n
        invariant
            start <= i <= n,
            n == s@.len(),
            d == number_digits(s@),
            d == s@.skip(start as int),
            d.len() == n - start,
            forall|j: int| 0 <= j < d.len() ==> is_digit(#[trigger] d[j]),
            acc == digits_value(d.subrange(0, i - start)),
        decreases n - i,
    {
        let c = s.get_char(i);
        let ghost k: int = i - start;
        assert(d.subrange(0, k + 1).drop_last() =~= d.subrange(0, k));
        assert(d[k] == c);
        let v = (c as u32 - 48) as usize;
        let next = match acc.checked_mul(10) {
            Some(m) => m.checked_add(v),
            None => None,
        };
        match next {
            Some(m) => {
                acc = m;
            },
            None => {
                proof {
                    lemma_digits_value_prefix(d, k + 1);
                    assert(digits_value(d.subrange(0, k + 1)) == acc * 10 + v);
                }
                return None;
            },
        }
        i = i + 1;
    }
    assert(d.subrange(0, d.len() as int) =~= d);
    Some(acc)
}

/// What `str::to_lowercase` makes of a text (the full Unicode mapping).
pub uninterp spec fn unicode_lowercase(s: Seq<char>) -> Seq<char>;

/// The character with ASCII letters made lower case.
pub open spec fn ascii_lower(c: char) -> char {
    if 'A' <= c <= 'Z' {
        ((c as u32) + 32) as char
    } else {
        c
    }
}

/// Calls `str::to_lowercase`. Claimed: the result is the function's
/// (deterministic) text for the input, and an all-ASCII text has each
/// upper-case letter lowered and everything else kept.
#[verifier::external_body]
fn to_lowercase(s: &str) -> (r: String)
    ensures
        r@ == unicode_lowercase(s@),
        (forall|i: int| 0 <= i < s@.len() ==> (s@[i] as u32) < 128) ==> r@ == Seq::new(
            s@.len(),
            |i: int| ascii_lower(s@[i]),
        ),
{
    s.to_lowercase()
}

// ---------------------------------------------------------------------------
// Verified text helpers
// ---------------------------------------------------------------------------

/// The decimal digit `d` as a character.
pub open spec fn digit_char(d: nat) -> char {
    ((48 + d) as u8) as char
}

/// The decimal text of a number.
pub open spec fn decimal(n: nat) -> Seq<char>
    decreases n,
{
    if n < 10 {
        seq![digit_char(n)]
    } else {
        decimal(n / 10).push(digit_char(n % 10))
    }
}

/// Append the decimal text of `n`.
fn push_decimal(s: &mut String, n: usize)
    ensures
        final(s)@ == old(s)@ + decimal(n as nat),
    decreases n,
{
    if n >= 10 {
        push_decimal(s, n / 10);
    }
    let d = (n % 10) as u8;
    push_char(s, (48 + d) as char);
    assert(old(s)@ + decimal(n as nat) =~= (if n >= 10 {
        old(s)@ + decimal((n / 10) as nat)
    } else {
        old(s)@
    }).push(digit_char((n % 10) as nat)));
}

/// Whether two texts are equal.
fn text_eq(a: &str, b: &str) -> (r: bool)
    ensures
        r == (a@ == b@),
{
    let n = a.unicode_len();
    if n != b.unicode_len() {
        return false;
    }
    let mut i: usize = 0;
    while i < n
        invariant
            n == a@.len(),
            n == b@.len(),
            i <= n,
            forall|k: int| 0 <= k < i ==> a@[k] == b@[k],
        decreases n - i,
    {
        if a.get_char(i) != b.get_char(i) {
            return false;
        }
        i = i + 1;
    }
    assert(a@ =~= b@);
    true
}

/// The first '+' in `s` at or after `i`, or the length of `s` when there is
/// none.
pub open spec fn find_plus(s: Seq<char>, i: int) -> int
    decreases s.len() - i,
{
    if i >= s.len() {
        s.len() as int
    } else if s[i] == '+' {
        i
    } else {
        find_plus(s, i + 1)
    }
}

/// Where the search for a '+' stops.
pub proof fn lemma_find_plus(s: Seq<char>, i: int)
    requires
        0 <= i <= s.len(),
    ensures
        i <= find_plus(s, i) <= s.len(),
        find_plus(s, i) < s.len() ==> s[find_plus(s, i)] == '+',
        forall|k: int| i <= k < find_plus(s, i) ==> s[k] != '+',
    decreases s.len() - i,
{
    if i < s.len() && s[i] != '+' {
        lemma_find_plus(s, i + 1);
    }
}

/// Find the first '+' in `s` at or after `from`.
fn plus_from(s: &str, from: usize) -> (r: usize)
    requires
        from <= s@.len(),
    ensures
        r == find_plus(s@, from as int),
{
    proof {
        lemma_find_plus(s@, from as int);
    }
    let n = s.unicode_len();
    let mut i = from;
    while i < n
        invariant
            n == s@.len(),
            from <= i <= n,
            forall|k: int| from <= k < i ==> s@[k] != '+',
            find_plus(s@, from as int) == find_plus(s@, i as int),
        decreases n - i,
    {
        if s.get_char(i) == '+' {
            return i;
        }
        i = i + 1;
    }
    i
}

/// Whether the text starts with "0x".
pub open spec fn starts_0x(s: Seq<char>) -> bool {
    s.len() >= 2 && s[0] == '0' && s[1] == 'x'
}

/// The part of an "0x..." operand before its first '+'.
pub open spec fn offset_part(s: Seq<char>) -> Seq<char> {
    s.subrange(0, find_plus(s, 0))
}

/// The part of an "0x..." operand between its first '+' and the next one.
pub open spec fn arg_part(s: Seq<char>) -> Seq<char> {
    let p1 = find_plus(s, 0);
    s.subrange(p1 + 1, find_plus(s, p1 + 1))
}

/// Whether an operand can be turned into an expression: every "0x..."
/// address met on the way has a '+' and an operand after it.
pub open spec fn getter_defined(op: Seq<char>) -> bool
    decreases op.len(),
{
    starts_0x(op) ==> {
        let p1 = find_plus(op, 0);
        p1 < op.len() && {
            proof {
                lemma_find_plus(op, 0);
                lemma_find_plus(op, p1 + 1);
            }
            getter_defined(arg_part(op))
        }
    }
}

/// The Rust expression that reads operand `op` (`bits` wide, through memory
/// unless `immediate`), as the decoder's generator writes it.
pub open spec fn getter_text(op: Seq<char>, bits: nat, immediate: bool) -> Seq<char>
    decreases op.len(), if immediate {
        0int
    } else {
        1int
    },
{
    if !immediate {
        "mmu.get"@ + decimal(bits) + "("@ + getter_text(op, bits, true) + ")"@
    } else if op == "nz"@ {
        "!cpu.get_zf()"@
    } else if op == "nc"@ {
        "!cpu.get_cf()"@
    } else if op == "z"@ {
        "cpu.get_zf()"@
    } else if op == "cf"@ {
        "cpu.get_cf()"@
    } else if op == "d8"@ || op == "a8"@ || op == "r8"@ {
        "mmu.get8(cpu.get_pc().wrapping_add(arg))"@
    } else if op == "d16"@ || op == "a16"@ {
        "mmu.get16(cpu.get_pc().wrapping_add(arg))"@
    } else if starts_0x(op) {
        let p1 = find_plus(op, 0);
        if p1 < op.len() {
            proof {
                lemma_find_plus(op, 0);
                lemma_find_plus(op, p1 + 1);
            }
            offset_part(op) + "+"@ + getter_text(arg_part(op), bits, true) + " as u16"@
        } else {
            Seq::empty()
        }
    } else if is_usize_text(trimmed(op)) {
        op
    } else {
        "cpu.get_"@ + op + "()"@
    }
}

/// The Rust expression that reads an operand: through memory (`mmu.getN`)
/// unless immediate; a condition as a flag test; an immediate kind as the
/// bytes after the opcode; "0x..+X" as an I/O-page address; a number as
/// itself; any other name as a CPU register getter.
pub fn eval_getter(operand: &str, bits: usize, immediate: bool) -> (r: String)
    requires
        getter_defined(operand@),
    ensures
        r@ == getter_text(operand@, bits as nat, immediate),
    decreases operand@.len(), if immediate {
        0int
    } else {
        1int
    },
{
    proof {
        reveal_strlit("nz");
        reveal_strlit("nc");
        reveal_strlit("z");
        reveal_strlit("cf");
        reveal_strlit("d8");
        reveal_strlit("a8");
        reveal_strlit("r8");
        reveal_strlit("d16");
        reveal_strlit("a16");
    }
    if !immediate {
        let inner = eval_getter(operand, bits, true);
        let mut s = String::new();
        push_str(&mut s, "mmu.get");
        push_decimal(&mut s, bits);
        push_str(&mut s, "(");
        push_str(&mut s, inner.as_str());
        push_str(&mut s, ")");
        s
    } else if text_eq(operand, "nz") {
        let mut s = String::new();
        push_str(&mut s, "!cpu.get_zf()");
        s
    } else if text_eq(operand, "nc") {
        let mut s = String::new();
        push_str(&mut s, "!cpu.get_cf()");
        s
    } else if text_eq(operand, "z") {
        let mut s = String::new();
        push_str(&mut s, "cpu.get_zf()");
        s
    } else if text_eq(operand, "cf") {
        let mut s = String::new();
        push_str(&mut s, "cpu.get_cf()");
        s
    } else if text_eq(operand, "d8") || text_eq(operand, "a8") || text_eq(operand, "r8") {
        let mut s = String::new();
        push_str(&mut s, "mmu.get8(cpu.get_pc().wrapping_add(arg))");
        s
    } else if text_eq(operand, "d16") || text_eq(operand, "a16") {
        let mut s = String::new();
        push_str(&mut s, "mmu.get16(cpu.get_pc().wrapping_add(arg))");
        s
    } else if starts_with_0x(operand) {
        let n = operand.unicode_len();
        let p1 = plus_from(operand, 0);
        let p2 = plus_from(operand, p1 + 1);
        proof {
            lemma_find_plus(operand@, 0);
            lemma_find_plus(operand@, p1 + 1);
        }
        let offset = operand.substring_char(0, p1);
        let arg = operand.substring_char(p1 + 1, p2);
        let inner = eval_getter(arg, bits, true);
        let mut s = String::new();
        push_str(&mut s, offset);
        push_str(&mut s, "+");
        push_str(&mut s, inner.as_str());
        push_str(&mut s, " as u16");
        s
    } else if is_num(operand) {
        let mut s = String::new();
        push_str(&mut s, operand);
        s
    } else {
        let mut s = String::new();
        push_str(&mut s, "cpu.get_");
        push_str(&mut s, operand);
        push_str(&mut s, "()");
        s
    }
}

/// Whether the text starts with "0x".
fn starts_with_0x(s: &str) -> (r: bool)
    ensures
        r == starts_0x(s@),
{
    s.unicode_len() >= 2 && s.get_char(0) == '0' && s.get_char(1) == 'x'
}

/// Whether the text, trimmed of white space, is a `usize`.
fn is_num(s: &str) -> (r: bool)
    ensures
        r == is_usize_text(trimmed(s@)),
{
    match parse_usize(trim(s)) {
        Some(_) => true,
        None => false,
    }
}

/// The Rust text that starts a write of operand `op`: through memory
/// (`mmu.setN(address, `) unless immediate, else a register setter call
/// (`cpu.set_op(`); the generator appends the value and the closing bracket.
pub open spec fn setter_text(op: Seq<char>, bits: nat, immediate: bool) -> Seq<char> {
    if !immediate {
        "mmu.set"@ + decimal(bits) + "("@ + getter_text(op, bits, true) + ", "@
    } else {
        "cpu.set_"@ + op + "("@
    }
}

/// The start of the Rust call that writes an operand.
pub fn eval_setter(operand: &str, bits: usize, immediate: bool) -> (r: String)
    requires
        !immediate ==> getter_defined(operand@),
    ensures
        r@ == setter_text(operand@, bits as nat, immediate),
{
    let mut s = String::new();
    if !immediate {
        let address = eval_getter(operand, bits, true);
        push_str(&mut s, "mmu.set");
        push_decimal(&mut s, bits);
        push_str(&mut s, "(");
        push_str(&mut s, address.as_str());
        push_str(&mut s, ", ");
    } else {
        push_str(&mut s, "cpu.set_");
        push_str(&mut s, operand);
        push_str(&mut s, "(");
    }
    s
}

/// Whether an operand can be turned into an expression (see
/// `getter_defined`).
fn operand_defined(op: &str) -> (r: bool)
    ensures
        r == getter_defined(op@),
    decreases op@.len(),
{
    if !starts_with_0x(op) {
        return true;
    }
    let n = op.unicode_len();
    let p1 = plus_from(op, 0);
    proof {
        lemma_find_plus(op@, 0);
    }
    if p1 >= n {
        return false;
    }
    let p2 = plus_from(op, p1 + 1);
    proof {
        lemma_find_plus(op@, p1 + 1);
    }
    let arg = op.substring_char(p1 + 1, p2);
    operand_defined(arg)
}

/// The expression that reads an operand of the table, its name taken in
/// lower case; none when the name holds an "0x..." address without a '+'
/// and an operand after it.
pub fn getter(operand: &Operand, bits: usize) -> (r: Option<String>)
    ensures
        getter_defined(unicode_lowercase(operand.name@)) ==> (r matches Some(t) && t@ == getter_text(
            unicode_lowercase(operand.name@),
            bits as nat,
            operand.immediate,
        )),
        !getter_defined(unicode_lowercase(operand.name@)) ==> r is None,
{
    let name = to_lowercase(operand.name.as_str());
    if operand_defined(name.as_str()) {
        Some(eval_getter(name.as_str(), bits, operand.immediate))
    } else {
        None
    }
}

/// The start of the call that writes an operand of the table, its name
/// taken in lower case; none when a write through memory names an "0x..."
/// address without a '+' and an operand after it.
pub fn setter(operand: &Operand, bits: usize) -> (r: Option<String>)
    ensures
        (operand.immediate || getter_defined(unicode_lowercase(operand.name@))) ==> (r matches Some(t)
            && t@ == setter_text(unicode_lowercase(operand.name@), bits as nat, operand.immediate)),
        !(operand.immediate || getter_defined(unicode_lowercase(operand.name@))) ==> r is None,
{
    let name = to_lowercase(operand.name.as_str());
    if operand.immediate || operand_defined(name.as_str()) {
        Some(eval_setter(name.as_str(), bits, operand.immediate))
    } else {
        None
    }
}

/// The Rust statement that applies a flag effect: nothing for "-", a
/// constant for "0" and "1", otherwise the lower-cased value as an
/// expression.
pub open spec fn setflag_text(value: Seq<char>, flag: Seq<char>) -> Seq<char> {
    if value == "-"@ {
        Seq::empty()
    } else if value == "0"@ {
        "cpu.set_"@ + flag + "f(false);"@
    } else if value == "1"@ {
        "cpu.set_"@ + flag + "f(true);"@
    } else {
        "cpu.set_"@ + flag + "f("@ + unicode_lowercase(value) + ");"@
    }
}

/// The statement that sets `flag` as the table's `value` says.
pub fn setflag(value: &str, flag: &str) -> (r: String)
    ensures
        r@ == setflag_text(value@, flag@),
{
    let mut s = String::new();
    if text_eq(value, "-") {
    } else if text_eq(value, "0") {
        push_str(&mut s, "cpu.set_");
        push_str(&mut s, flag);
        push_str(&mut s, "f(false);");
    } else if text_eq(value, "1") {
        push_str(&mut s, "cpu.set_");
        push_str(&mut s, flag);
        push_str(&mut s, "f(true);");
    } else {
        let lower = to_lowercase(value);
        push_str(&mut s, "cpu.set_");
        push_str(&mut s, flag);
        push_str(&mut s, "f(");
        push_str(&mut s, lower.as_str());
        push_str(&mut s, ");");
    }
    s
}

// ---------------------------------------------------------------------------
// Opcode codes
// ---------------------------------------------------------------------------

/// The number of bytes UTF-8 takes for a character.
pub open spec fn utf8_len(c: char) -> nat {
    let u = c as u32;
    if u < 0x80 {
        1
    } else if u < 0x800 {
        2
    } else if u < 0x10000 {
        3
    } else {
        4
    }
}

/// How many leading characters of the text fill its first two bytes, when
/// a character boundary falls there: two one-byte characters, or one
/// two-byte character.
pub open spec fn chars_in_two_bytes(s: Seq<char>) -> Option<nat> {
    if s.len() >= 2 && utf8_len(s[0]) == 1 && utf8_len(s[1]) == 1 {
        Some(2)
    } else if s.len() >= 1 && utf8_len(s[0]) == 2 {
        Some(1)
    } else {
        None
    }
}

/// Calls `String::insert_str(2, p)`, which inserts `p` at byte offset 2;
/// it requires a character boundary there.
#[verifier::external_body]
fn insert_at_byte_2(s: &mut String, p: &str)
    requires
        chars_in_two_bytes(old(s)@) is Some,
    ensures
        ({
            let k = chars_in_two_bytes(old(s)@)->0 as int;
            final(s)@ == old(s)@.take(k) + p@ + old(s)@.skip(k)
        }),
{
    s.insert_str(2, p);
}

/// The instruction with `prefix` put into its code after the leading
/// "0x" (so "0x3E" becomes "0x003E" or "0xcb3E").
pub open spec fn with_code_prefix(old_code: Seq<char>, new: Instruction, old: Instruction, prefix: Seq<char>) -> bool {
    let k = chars_in_two_bytes(old_code)->0 as int;
    &&& new.code@ == old_code.take(k) + prefix + old_code.skip(k)
    &&& new == Instruction { code: new.code, ..old }
}

/// Every code of the table has a character boundary after two bytes.
pub open spec fn codes_splittable(v: Seq<Instruction>) -> bool {
    forall|i: int| 0 <= i < v.len() ==> chars_in_two_bytes((#[trigger] v[i]).code@) is Some
}

fn prefix_codes(v: Vec<Instruction>, prefix: &str) -> (r: Vec<Instruction>)
    requires
        codes_splittable(v@),
    ensures
        r@.len() == v@.len(),
        forall|i: int|
            0 <= i < v@.len() ==> with_code_prefix(v@[i].code@, #[trigger] r@[i], v@[i], prefix@),
{
    let ghost orig = v@;
    let mut src = v;
    let mut out: Vec<Instruction> = Vec::new();
    while src.len() > 0
        invariant
            out@.len() + src@.len() == orig.len(),
            src@ == orig.skip(out@.len() as int),
            codes_splittable(orig),
            forall|i: int|
                0 <= i < out@.len() ==> with_code_prefix(orig[i].code@, #[trigger] out@[i], orig[i], prefix@),
        decreases src@.len(),
    {
        let mut inst = src.remove(0);
        insert_at_byte_2(&mut inst.code, prefix);
        out.push(inst);
    }
    out
}

/// The whole table in one list, the plain opcodes first: each code gets
/// "00" (plain) or "cb" (prefixed) after its "0x", so that it reads as the
/// 16-bit code the decoder matches on.
pub fn get_instructions(instructions: Instructions) -> (r: Vec<Instruction>)
    requires
        codes_splittable(instructions.unprefixed@),
        codes_splittable(instructions.cbprefixed@),
    ensures
        ({
            let u = instructions.unprefixed@;
            let c = instructions.cbprefixed@;
            &&& r@.len() == u.len() + c.len()
            &&& forall|i: int|
                0 <= i < u.len() ==> with_code_prefix(u[i].code@, #[trigger] r@[i], u[i], "00"@)
            &&& forall|i: int|
                0 <= i < c.len() ==> with_code_prefix(
                    c[i].code@,
                    #[trigger] r@[u.len() + i],
                    c[i],
                    "cb"@,
                )
        }),
{
    let ghost u = instructions.unprefixed@;
    let ghost c = instructions.cbprefixed@;
    let mut unprefixed_inst = prefix_codes(instructions.unprefixed, "00");
    let mut cb_inst = prefix_codes(instructions.cbprefixed, "cb");
    unprefixed_inst.append(&mut cb_inst);
    assert forall|i: int| 0 <= i < c.len() implies with_code_prefix(
        c[i].code@,
        #[trigger] unprefixed_inst@[u.len() + i],
        c[i],
        "cb"@,
    ) by {
    }
    unprefixed_inst
}

} // verus!
