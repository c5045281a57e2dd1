//! The names under which an artifact exports its parts.
//!
//! Every name is made of a tag for the kind of part, the prefix of the
//! module, an underscore and the index of the part in decimal. A loader that
//! knows the prefix can therefore find every part again, and modules with
//! different prefixes can share a process.

use vstd::prelude::*;

verus! {

/// The kinds of parts that an artifact exports under a derived name.
#[derive(Clone, Copy, Debug, PartialEq, Eq, Structural)]
pub enum SymbolRole {
    /// The body of a local function, by local function index.
    FunctionBody,
    /// The call trampoline of a signature, by signature index.
    CallTrampoline,
    /// The dynamic trampoline of an imported function, by function index.
    DynamicTrampoline,
    /// A custom section, by section index.
    Section,
}

/// The text of one decimal digit.
pub open spec fn digit(d: nat) -> Seq<char> {
    if d == 0 {
        "0"@
    } else if d == 1 {
        "1"@
    } else if d == 2 {
        "2"@
    } else if d == 3 {
        "3"@
    } else if d == 4 {
        "4"@
    } else if d == 5 {
        "5"@
    } else if d == 6 {
        "6"@
    } else if d == 7 {
        "7"@
    } else if d == 8 {
        "8"@
    } else {
        "9"@
    }
}

/// A number in decimal, without leading zeros.
pub open spec fn decimal(n: nat) -> Seq<char>
    decreases n,
{
    if n < 10 {
        digit(n)
    } else {
        decimal(n / 10) + digit(n % 10)
    }
}

/// The tag that starts the names of a kind of part.
pub open spec fn tag(role: SymbolRole) -> Seq<char> {
    match role {
        SymbolRole::FunctionBody => "wasm_function_"@,
        SymbolRole::CallTrampoline => "wasm_trampoline_"@,
        SymbolRole::DynamicTrampoline => "wasm_dyn_trampoline_"@,
        SymbolRole::Section => "wasm_section_"@,
    }
}

/// The name of part `index` of kind `role` in the module with `prefix`.
pub open spec fn symbol_name(role: SymbolRole, prefix: Seq<char>, index: nat) -> Seq<char> {
    tag(role) + prefix + "_"@ + decimal(index)
}

/// The name of the symbol that holds the metadata of every artifact.
pub open spec fn metadata_symbol() -> Seq<char> {
    "WASMER_METADATA"@
}

/// A name as the bytes of a symbol: its UTF-8 encoding.
pub open spec fn name_bytes(name: Seq<char>) -> Seq<u8> {
    vstd::utf8::encode_utf8(name)
}

/// The text of a decimal digit.
fn digit_text(d: usize) -> (text: &'static str)
    requires
        d < 10,
    ensures
        text@ == digit(d as nat),
{
    if d == 0 {
        "0"
    } else if d == 1 {
        "1"
    } else if d == 2 {
        "2"
    } else if d == 3 {
        "3"
    } else if d == 4 {
        "4"
    } else if d == 5 {
        "5"
    } else if d == 6 {
        "6"
    } else if d == 7 {
        "7"
    } else if d == 8 {
        "8"
    } else {
        "9"
    }
}

/// Appends `n` in decimal to `text`.
pub fn append_decimal(text: &mut String, n: usize)
    ensures
        final(text)@ == old(text)@ + decimal(n as nat),
    decreases n,
{
    if n >= 10 {
        append_decimal(text, n / 10);
    }
    text.append(digit_text(n % 10));
}

/// The tag that starts the names of a kind of part.
pub fn tag_text(role: SymbolRole) -> (text: &'static str)
    ensures
        text@ == tag(role),
{
    match role {
        SymbolRole::FunctionBody => "wasm_function_",
        SymbolRole::CallTrampoline => "wasm_trampoline_",
        SymbolRole::DynamicTrampoline => "wasm_dyn_trampoline_",
        SymbolRole::Section => "wasm_section_",
    }
}

/// Derives the name of part `index` of kind `role` from the module's prefix.
pub fn derive_symbol_name(role: SymbolRole, prefix: &str, index: usize) -> (name: String)
    ensures
        name@ == symbol_name(role, prefix@, index as nat),
{
    let mut name = String::from_str(tag_text(role));
    name.append(prefix);
    name.append("_");
    append_decimal(&mut name, index);
    name
}

/// What the digits are: one character each, none of them an underscore.
pub proof fn lemma_digit(d: nat)
    ensures
        digit(d).len() == 1,
        digit(d)[0] != '_',
        d < 10 ==> digit(d)[0] as nat == 48 + d,
{
    reveal_strlit("0");
    reveal_strlit("1");
    reveal_strlit("2");
    reveal_strlit("3");
    reveal_strlit("4");
    reveal_strlit("5");
    reveal_strlit("6");
    reveal_strlit("7");
    reveal_strlit("8");
    reveal_strlit("9");
}

/// A number in decimal is not empty and holds no underscore.
pub proof fn lemma_decimal_digits(n: nat)
    ensures
        decimal(n).len() >= 1,
        n >= 10 ==> decimal(n).len() >= 2,
        forall|k: int| 0 <= k < decimal(n).len() ==> decimal(n)[k] != '_',
    decreases n,
{
    if n < 10 {
        lemma_digit(n);
    } else {
        lemma_decimal_digits(n / 10);
        lemma_digit(n % 10);
    }
}

/// Different numbers are written differently.
pub proof fn lemma_decimal_injective(a: nat, b: nat)
    requires
        decimal(a) == decimal(b),
    ensures
        a == b,
    decreases a,
{
    lemma_decimal_digits(a);
    lemma_decimal_digits(b);
    lemma_digit(a % 10);
    lemma_digit(b % 10);
    if a < 10 || b < 10 {
        assert(a < 10 && b < 10);
        lemma_digit(a);
        lemma_digit(b);
    } else {
        let left = decimal(a / 10);
        let right = decimal(b / 10);
        assert(decimal(a).last() == digit(a % 10)[0]);
        assert(decimal(b).last() == digit(b % 10)[0]);
        assert(left =~= decimal(a).drop_last());
        assert(right =~= decimal(b).drop_last());
        lemma_decimal_injective(a / 10, b / 10);
    }
}

/// A text that ends in an underscore and a number determines both what
/// stands before the underscore and the number.
pub proof fn lemma_suffix_determines(p: Seq<char>, a: nat, q: Seq<char>, b: nat)
    requires
        p + "_"@ + decimal(a) == q + "_"@ + decimal(b),
    ensures
        p == q,
        a == b,
{
    reveal_strlit("_");
    lemma_decimal_digits(a);
    lemma_decimal_digits(b);
    let left = p + "_"@ + decimal(a);
    let right = q + "_"@ + decimal(b);
    assert(left.len() == p.len() + 1 + decimal(a).len());
    assert(right.len() == q.len() + 1 + decimal(b).len());
    assert(left[p.len() as int] == '_');
    assert(right[q.len() as int] == '_');
    if p.len() < q.len() {
        // The underscore after `q` falls among the digits of `a`.
        assert(left[q.len() as int] == decimal(a)[q.len() - p.len() - 1]);
    } else if q.len() < p.len() {
        assert(right[p.len() as int] == decimal(b)[p.len() - q.len() - 1]);
    } else {
        assert(p =~= left.subrange(0, p.len() as int));
        assert(q =~= right.subrange(0, q.len() as int));
        assert(decimal(a) =~= left.subrange(p.len() as int + 1, left.len() as int));
        assert(decimal(b) =~= right.subrange(q.len() as int + 1, right.len() as int));
        lemma_decimal_injective(a, b);
    }
}

/// The tags differ in their sixth character, and none starts like the name
/// of the metadata symbol.
pub proof fn lemma_tags(role: SymbolRole)
    ensures
        tag(role).len() > 5,
        tag(role)[0] == 'w',
        tag(role)[4] == '_',
        tag(role)[5] == match role {
            SymbolRole::FunctionBody => 'f',
            SymbolRole::CallTrampoline => 't',
            SymbolRole::DynamicTrampoline => 'd',
            SymbolRole::Section => 's',
        },
{
    reveal_strlit("wasm_function_");
    reveal_strlit("wasm_trampoline_");
    reveal_strlit("wasm_dyn_trampoline_");
    reveal_strlit("wasm_section_");
}

/// A name tells the kind of part, the prefix of its module and the index:
/// two names are the same only if all three are.
pub proof fn lemma_symbol_name_injective(
    role: SymbolRole,
    prefix: Seq<char>,
    index: nat,
    other_role: SymbolRole,
    other_prefix: Seq<char>,
    other_index: nat,
)
    requires
        symbol_name(role, prefix, index) == symbol_name(other_role, other_prefix, other_index),
    ensures
        role == other_role,
        prefix == other_prefix,
        index == other_index,
{
    lemma_tags(role);
    lemma_tags(other_role);
    let name = symbol_name(role, prefix, index);
    let other = symbol_name(other_role, other_prefix, other_index);
    assert(name[5] == tag(role)[5]);
    assert(other[5] == tag(other_role)[5]);
    assert(role == other_role);
    let n = tag(role).len() as int;
    assert(prefix + "_"@ + decimal(index) =~= name.subrange(n, name.len() as int));
    assert(other_prefix + "_"@ + decimal(other_index) =~= other.subrange(n, other.len() as int));
    lemma_suffix_determines(prefix, index, other_prefix, other_index);
}

/// Modules with different prefixes share no name: whatever the kinds and
/// the indices of two parts, their names differ if the prefixes do.
pub proof fn lemma_prefixes_keep_names_apart(
    prefix: Seq<char>,
    role: SymbolRole,
    index: nat,
    other_prefix: Seq<char>,
    other_role: SymbolRole,
    other_index: nat,
)
    requires
        prefix != other_prefix,
    ensures
        symbol_name(role, prefix, index) != symbol_name(other_role, other_prefix, other_index),
{
    if symbol_name(role, prefix, index) == symbol_name(other_role, other_prefix, other_index) {
        lemma_symbol_name_injective(role, prefix, index, other_role, other_prefix, other_index);
    }
}

/// No derived name is the name of the metadata symbol.
pub proof fn lemma_symbol_name_is_not_metadata(role: SymbolRole, prefix: Seq<char>, index: nat)
    ensures
        symbol_name(role, prefix, index) != metadata_symbol(),
{
    lemma_tags(role);
    reveal_strlit("WASMER_METADATA");
    assert(symbol_name(role, prefix, index)[0] == 'w');
    assert(metadata_symbol()[0] == 'W');
}

/// Different names are different as bytes.
pub proof fn lemma_name_bytes_injective(name: Seq<char>, other: Seq<char>)
    requires
        name_bytes(name) == name_bytes(other),
    ensures
        name == other,
{
    vstd::utf8::encode_utf8_decode_utf8(name);
    vstd::utf8::encode_utf8_decode_utf8(other);
}

/// A name that is not empty is not empty as bytes.
pub proof fn lemma_name_bytes_not_empty(name: Seq<char>)
    requires
        name.len() > 0,
    ensures
        name_bytes(name).len() > 0,
{
    assert(vstd::utf8::encode_scalar(name[0] as u32).len() > 0);
}

/// Whether a text holds the character with the number zero, which ends
/// a name in the tables of an object file.
pub open spec fn holds_nul(text: Seq<char>) -> bool {
    text.contains('\0')
}

/// Tests whether bytes hold a zero byte.
pub fn holds_zero(bytes: &[u8]) -> (held: bool)
    ensures
        held == bytes@.contains(0u8),
{
    let mut i: usize = 0;
    while i < bytes.len()
        invariant
            i <= bytes@.len(),
            forall|k: int| 0 <= k < i ==> bytes@[k] != 0,
        decreases bytes.len() - i,
    {
        if bytes[i] == 0 {
            return true;
        }
        i += 1;
    }
    false
}

/// The one byte of a character below 128 is zero only for the character
/// with the number zero.
proof fn lemma_single_byte(scalar: u32)
    by (bit_vector)
    requires
        scalar <= 0x7F,
    ensures
        ((scalar & 0x7F) as u8 == 0) == (scalar == 0),
{
}

/// No byte of a character that takes more than one byte is zero.
proof fn lemma_later_bytes(scalar: u32)
    by (bit_vector)
    ensures
        0xC0u8 | ((scalar >> 6) & 0x1F) as u8 != 0,
        0xE0u8 | ((scalar >> 12) & 0x0F) as u8 != 0,
        0xF0u8 | ((scalar >> 18) & 0x7) as u8 != 0,
        0x80u8 | (scalar & 0x3F) as u8 != 0,
        0x80u8 | ((scalar >> 6) & 0x3F) as u8 != 0,
        0x80u8 | ((scalar >> 12) & 0x3F) as u8 != 0,
{
}

/// A character gives a zero byte only if it is the character with the
/// number zero.
pub proof fn lemma_character_bytes(c: char)
    ensures
        vstd::utf8::encode_scalar(c as u32).len() >= 1,
        vstd::utf8::encode_scalar(c as u32).contains(0u8) <==> c == '\0',
{
    let scalar = c as u32;
    let bytes = vstd::utf8::encode_scalar(scalar);
    lemma_later_bytes(scalar);
    if scalar <= 0x7F {
        lemma_single_byte(scalar);
        assert(bytes =~= seq![(scalar & 0x7F) as u8]);
        if c == '\0' {
            assert(bytes[0] == 0);
        }
    }
    if bytes.contains(0u8) {
        let k = choose|k: int| 0 <= k < bytes.len() && bytes[k] == 0u8;
        assert(bytes[k] == 0u8);
    }
}

/// A name holds a zero byte exactly if it holds the character with the
/// number zero.
pub proof fn lemma_name_bytes_nul(name: Seq<char>)
    ensures
        name_bytes(name).contains(0u8) <==> holds_nul(name),
    decreases name.len(),
{
    if name.len() > 0 {
        let first = vstd::utf8::encode_scalar(name[0] as u32);
        let rest = name_bytes(name.drop_first());
        let bytes = name_bytes(name);
        assert(bytes =~= first + rest);
        lemma_character_bytes(name[0]);
        lemma_name_bytes_nul(name.drop_first());
        if bytes.contains(0u8) {
            let k = choose|k: int| 0 <= k < bytes.len() && bytes[k] == 0u8;
            if k < first.len() {
                assert(first[k] == 0u8);
                assert(name[0] == '\0');
            } else {
                assert(rest[k - first.len()] == 0u8);
                let j = choose|j: int|
                    0 <= j < name.drop_first().len() && name.drop_first()[j] == '\0';
                assert(name[j + 1] == '\0');
            }
        }
        if holds_nul(name) {
            let j = choose|j: int| 0 <= j < name.len() && name[j] == '\0';
            if j == 0 {
                let k = choose|k: int| 0 <= k < first.len() && first[k] == 0u8;
                assert(bytes[k] == 0u8);
            } else {
                assert(name.drop_first()[j - 1] == '\0');
                let k = choose|k: int| 0 <= k < rest.len() && rest[k] == 0u8;
                assert(bytes[first.len() + k] == 0u8);
            }
        }
    }
}

/// A number in decimal does not hold the character with the number zero.
pub proof fn lemma_decimal_has_no_nul(n: nat)
    ensures
        !holds_nul(decimal(n)),
    decreases n,
{
    lemma_digit(n % 10);
    reveal_strlit("0");
    reveal_strlit("1");
    reveal_strlit("2");
    reveal_strlit("3");
    reveal_strlit("4");
    reveal_strlit("5");
    reveal_strlit("6");
    reveal_strlit("7");
    reveal_strlit("8");
    reveal_strlit("9");
    if n >= 10 {
        lemma_decimal_has_no_nul(n / 10);
        if holds_nul(decimal(n)) {
            let j = choose|j: int| 0 <= j < decimal(n).len() && decimal(n)[j] == '\0';
            if j < decimal(n / 10).len() {
                assert(decimal(n / 10)[j] == '\0');
            } else {
                assert(digit(n % 10)[j - decimal(n / 10).len()] == '\0');
            }
        }
    } else {
        if holds_nul(decimal(n)) {
            let j = choose|j: int| 0 <= j < decimal(n).len() && decimal(n)[j] == '\0';
            assert(digit(n)[j] == '\0');
        }
    }
}

/// A derived name holds a zero byte exactly if the prefix of the module
/// holds the character with the number zero, and the name of the metadata
/// symbol holds none.
pub proof fn lemma_symbol_name_bytes(role: SymbolRole, prefix: Seq<char>, index: nat)
    ensures
        name_bytes(symbol_name(role, prefix, index)).contains(0u8) <==> holds_nul(prefix),
        !name_bytes(metadata_symbol()).contains(0u8),
{
    let name = symbol_name(role, prefix, index);
    let head = tag(role);
    let digits = decimal(index);
    lemma_name_bytes_nul(name);
    lemma_name_bytes_nul(metadata_symbol());
    lemma_decimal_has_no_nul(index);
    reveal_strlit("wasm_function_");
    reveal_strlit("wasm_trampoline_");
    reveal_strlit("wasm_dyn_trampoline_");
    reveal_strlit("wasm_section_");
    reveal_strlit("_");
    reveal_strlit("WASMER_METADATA");
    assert(!holds_nul(head)) by {
        if holds_nul(head) {
            let j = choose|j: int| 0 <= j < head.len() && head[j] == '\0';
            assert(head[j] == '\0');
        }
    }
    assert(!holds_nul(metadata_symbol())) by {
        if holds_nul(metadata_symbol()) {
            let j = choose|j: int|
                0 <= j < metadata_symbol().len() && metadata_symbol()[j] == '\0';
            assert(metadata_symbol()[j] == '\0');
        }
    }
    if holds_nul(name) {
        let j = choose|j: int| 0 <= j < name.len() && name[j] == '\0';
        if j < head.len() {
            assert(head[j] == '\0');
        } else if j < head.len() + prefix.len() {
            assert(prefix[j - head.len()] == '\0');
        } else if j == head.len() + prefix.len() {
            assert(name[j] == '_');
        } else {
            assert(digits[j - head.len() - prefix.len() - 1] == '\0');
        }
    }
    if holds_nul(prefix) {
        let j = choose|j: int| 0 <= j < prefix.len() && prefix[j] == '\0';
        assert(name[head.len() + j] == '\0');
    }
}

} // verus!
