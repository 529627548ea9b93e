//! Names of modules and functions, and the storage paths of modules and
//! resources.

use vstd::prelude::*;
use crate::state_key::{Address, StateKey, StateKeyView};

verus! {

/// Whether a character may stand in an identifier: a letter, a digit or an
/// underscore, all ASCII.
pub open spec fn is_identifier_char(c: char) -> bool {
    c == '_' || ('a' <= c && c <= 'z') || ('A' <= c && c <= 'Z') || ('0' <= c && c <= '9')
}

/// Whether a character is an ASCII letter.
pub open spec fn is_letter(c: char) -> bool {
    ('a' <= c && c <= 'z') || ('A' <= c && c <= 'Z')
}

/// Whether every character from the second on may stand in an identifier.
pub open spec fn tail_is_valid(s: Seq<char>) -> bool {
    forall|i: int| 1 <= i < s.len() ==> is_identifier_char(#[trigger] s[i])
}

/// Whether a string is a valid identifier: a letter followed by identifier
/// characters, or an underscore followed by at least one identifier
/// character, or the one special name `<SELF>`.
pub open spec fn valid_identifier(s: Seq<char>) -> bool {
    ||| s == seq!['<', 'S', 'E', 'L', 'F', '>']
    ||| (s.len() >= 1 && is_letter(s[0]) && tail_is_valid(s))
    ||| (s.len() > 1 && s[0] == '_' && tail_is_valid(s))
}

/// Calls `Identifier::is_valid` of move-core-types, which tests the rule
/// that `valid_identifier` states.
#[verifier::external_body]
pub(crate) fn identifier_is_valid(s: &str) -> (r: bool)
    ensures
        r == valid_identifier(s@),
{
    move_core_types::identifier::Identifier::is_valid(s)
}

/// The longest name that the storage path of a module or resource can
/// hold: the encoder's bound on the length of a sequence.
pub const MAX_NAME_LENGTH: usize = 2147483647;

/// The tag byte in front of a module's storage path.
pub const CODE_TAG: u8 = 0;

/// The tag byte in front of a resource's storage path.
pub const RESOURCE_TAG: u8 = 1;

/// A length in the variable-length form of the encoder: seven bits to a
/// byte, least significant first, the top bit set on every byte but the
/// last.
pub open spec fn uleb128(n: nat) -> Seq<u8>
    decreases n,
{
    if n < 128 {
        seq![n as u8]
    } else {
        seq![((n % 128) + 128) as u8] + uleb128(n / 128)
    }
}

/// The bytes of a string of ASCII characters: one byte to a character.
pub open spec fn ascii_bytes(s: Seq<char>) -> Seq<u8> {
    Seq::new(s.len(), |i: int| s[i] as u8)
}

/// A name as the encoder writes it: its length, then its bytes.
pub open spec fn encoded_name(s: Seq<char>) -> Seq<u8> {
    uleb128(s.len()) + ascii_bytes(s)
}

/// The storage path of the module `name` at `address`: the code tag, the
/// address, then the name.
pub open spec fn module_access_vector(address: Seq<u8>, name: Seq<char>) -> Seq<u8> {
    seq![CODE_TAG] + address + encoded_name(name)
}

/// The storage path of the resource type `module::name` declared at
/// `address`, without type arguments: the resource tag, the address, the
/// two names, then the length of the empty list of type arguments.
pub open spec fn resource_access_vector(address: Seq<u8>, module: Seq<char>, name: Seq<char>) -> Seq<u8> {
    seq![RESOURCE_TAG] + address + encoded_name(module) + encoded_name(name) + seq![0u8]
}

/// Whether a character is ASCII.
pub open spec fn is_ascii_char(c: char) -> bool {
    '\0' <= c && c <= '\x7f'
}

/// Every character of a valid identifier is ASCII.
pub proof fn lemma_identifier_is_ascii(s: Seq<char>)
    requires
        valid_identifier(s),
    ensures
        forall|i: int| 0 <= i < s.len() ==> is_ascii_char(#[trigger] s[i]),
{
    assert forall|i: int| 0 <= i < s.len() implies is_ascii_char(#[trigger] s[i]) by {
        if s == seq!['<', 'S', 'E', 'L', 'F', '>'] {
            assert(s[0] == '<' && s[1] == 'S' && s[2] == 'E' && s[3] == 'L' && s[4] == 'F' && s[5] == '>');
        } else if i >= 1 {
            assert(is_identifier_char(s[i]));
        }
    }
}

/// The encoded length takes no fewer bytes for a larger number.
pub proof fn lemma_uleb128_len_monotone(n: nat, m: nat)
    requires
        n <= m,
    ensures
        1 <= uleb128(n).len() <= uleb128(m).len(),
    decreases m,
{
    if m >= 128 {
        if n >= 128 {
            lemma_uleb128_len_monotone(n / 128, m / 128);
        } else {
            lemma_uleb128_len_monotone(0, m / 128);
        }
    }
}

/// Two ASCII names with the same encoding are the same name.
pub proof fn lemma_encoded_name_injective(a: Seq<char>, b: Seq<char>)
    requires
        forall|i: int| 0 <= i < a.len() ==> is_ascii_char(#[trigger] a[i]),
        forall|i: int| 0 <= i < b.len() ==> is_ascii_char(#[trigger] b[i]),
        encoded_name(a) == encoded_name(b),
    ensures
        a == b,
{
    let ea = encoded_name(a);
    let eb = encoded_name(b);
    assert(ea.len() == uleb128(a.len()).len() + a.len());
    assert(eb.len() == uleb128(b.len()).len() + b.len());
    if a.len() < b.len() {
        lemma_uleb128_len_monotone(a.len(), b.len());
    } else if b.len() < a.len() {
        lemma_uleb128_len_monotone(b.len(), a.len());
    }
    assert(a.len() == b.len());
    let k = uleb128(a.len()).len() as int;
    assert forall|i: int| 0 <= i < a.len() implies a[i] == b[i] by {
        assert(ea[k + i] == ascii_bytes(a)[i]);
        assert(eb[k + i] == ascii_bytes(b)[i]);
        assert(a[i] as u8 == b[i] as u8);
        assert(is_ascii_char(a[i]) && is_ascii_char(b[i]));
    }
    assert(a =~= b);
}

/// The encoding of one name followed by anything decides the name: no
/// encoded ASCII name is the beginning of another followed by other bytes,
/// unless the names are the same.
pub proof fn lemma_encoded_name_prefix(a: Seq<char>, rest_a: Seq<u8>, b: Seq<char>, rest_b: Seq<u8>)
    requires
        a.len() < 128,
        b.len() < 128,
        forall|i: int| 0 <= i < a.len() ==> is_ascii_char(#[trigger] a[i]),
        forall|i: int| 0 <= i < b.len() ==> is_ascii_char(#[trigger] b[i]),
        encoded_name(a) + rest_a == encoded_name(b) + rest_b,
    ensures
        a == b,
        rest_a == rest_b,
{
    let ea = encoded_name(a) + rest_a;
    let eb = encoded_name(b) + rest_b;
    assert(ea[0] == a.len() as u8);
    assert(eb[0] == b.len() as u8);
    assert(a.len() == b.len());
    assert forall|i: int| 0 <= i < a.len() implies a[i] == b[i] by {
        assert(ea[1 + i] == ascii_bytes(a)[i]);
        assert(eb[1 + i] == ascii_bytes(b)[i]);
        assert(is_ascii_char(a[i]) && is_ascii_char(b[i]));
        assert(a[i] as u8 == b[i] as u8);
    }
    assert(a =~= b);
    assert(rest_a =~= ea.subrange(1 + a.len() as int, ea.len() as int));
    assert(rest_b =~= eb.subrange(1 + b.len() as int, eb.len() as int));
}

/// Builds the `ModuleId` of `name` at `address` and calls its
/// `access_vector`: the code tag, then the BCS bytes of the identity, which
/// are the sixteen bytes of the address and the name with its length in
/// front. The name must be a valid identifier whose length the encoder
/// accepts, for else the call does not return.
#[verifier::external_body]
fn module_id_access_vector(address: &[u8; 16], name: &str) -> (r: Vec<u8>)
    requires
        valid_identifier(name@),
        name@.len() <= MAX_NAME_LENGTH,
    ensures
        r@ == module_access_vector(address@, name@),
{
    let id = move_core_types::identifier::Identifier::new(name).unwrap();
    let address = move_core_types::account_address::AccountAddress::new(*address);
    move_core_types::language_storage::ModuleId::new(address, id).access_vector()
}

/// Builds the `StructTag` of `module::name` at `address`, without type
/// arguments, and calls its `access_vector`: the resource tag, then the
/// BCS bytes of the tag, which are the sixteen bytes of the address, the
/// two names with their lengths in front, and a zero for the empty list of
/// type arguments. Both names must be valid identifiers whose length the
/// encoder accepts, for else the call does not return.
#[verifier::external_body]
fn struct_tag_access_vector(address: &[u8; 16], module: &str, name: &str) -> (r: Vec<u8>)
    requires
        valid_identifier(module@),
        valid_identifier(name@),
        module@.len() <= MAX_NAME_LENGTH,
        name@.len() <= MAX_NAME_LENGTH,
    ensures
        r@ == resource_access_vector(address@, module@, name@),
{
    let tag = move_core_types::language_storage::StructTag {
        address: move_core_types::account_address::AccountAddress::new(*address),
        module: move_core_types::identifier::Identifier::new(module).unwrap(),
        name: move_core_types::identifier::Identifier::new(name).unwrap(),
        type_params: Vec::new(),
    };
    tag.access_vector()
}

/// Whether a name can be used in a storage path: a valid identifier of
/// acceptable length.
pub open spec fn usable_name(s: Seq<char>) -> bool {
    valid_identifier(s) && s.len() <= MAX_NAME_LENGTH
}

/// Tests whether a name can be used in a storage path.
pub fn is_usable_name(s: &str) -> (r: bool)
    ensures
        r == usable_name(s@),
{
    identifier_is_valid(s) && s.unicode_len() <= MAX_NAME_LENGTH
}

/// The identity of a module: the address that publishes it and its name,
/// which is a usable name.
#[derive(Debug)]
pub struct ModuleId {
    address: Address,
    name: String,
}

/// A module's identity in contracts: address and name.
pub type ModuleIdView = (Seq<u8>, Seq<char>);

impl View for ModuleId {
    type V = ModuleIdView;

    closed spec fn view(&self) -> ModuleIdView {
        (self.address@, self.name@)
    }
}

impl ModuleId {
    /// The representation invariant: the name is usable.
    pub closed spec fn wf(&self) -> bool {
        usable_name(self.name@)
    }

    /// The module `name` at `address`, or `None` where the name is not
    /// usable.
    pub fn new(address: Address, name: String) -> (r: Option<ModuleId>)
        ensures
            match r {
                Some(id) => usable_name(name@) && id.wf() && id@ == (address@, name@),
                None => !usable_name(name@),
            },
    {
        if is_usable_name(name.as_str()) {
            Some(ModuleId { address, name })
        } else {
            None
        }
    }

    /// The address that publishes the module.
    pub fn address(&self) -> (r: Address)
        ensures
            r@ == self@.0,
    {
        self.address
    }

    /// The module's name.
    pub fn name(&self) -> (r: &str)
        ensures
            r@ == self@.1,
    {
        self.name.as_str()
    }

    /// The state key under which the module's bytes are stored.
    pub fn state_key(&self) -> (r: StateKey)
        requires
            self.wf(),
        ensures
            r@ == module_key(self@),
    {
        let path = module_id_access_vector(&self.address.bytes, self.name.as_str());
        StateKey::new(self.address, path)
    }
}

/// The state key of a module: its address, and its storage path below it.
pub open spec fn module_key(id: ModuleIdView) -> StateKeyView {
    StateKeyView { address: id.0, path: module_access_vector(id.0, id.1) }
}

/// The state key of a resource of type `module::name`, declared at the
/// core code address, that is stored under `address`.
pub open spec fn resource_key(address: Seq<u8>, module: Seq<char>, name: Seq<char>) -> StateKeyView {
    StateKeyView {
        address,
        path: resource_access_vector(crate::state_key::core_code_address(), module, name),
    }
}

/// Two modules with usable names and the same state key are the same
/// module.
pub proof fn lemma_module_key_injective(a: ModuleIdView, b: ModuleIdView)
    requires
        usable_name(a.1),
        usable_name(b.1),
        module_key(a) == module_key(b),
    ensures
        a == b,
{
    lemma_identifier_is_ascii(a.1);
    lemma_identifier_is_ascii(b.1);
    let pa = module_access_vector(a.0, a.1);
    let pb = module_access_vector(b.0, b.1);
    assert(a.0 == b.0);
    let k = 1 + a.0.len() as int;
    assert(encoded_name(a.1) =~= pa.subrange(k, pa.len() as int));
    assert(encoded_name(b.1) =~= pb.subrange(k, pb.len() as int));
    lemma_encoded_name_injective(a.1, b.1);
}

/// Two resource types with short usable names that are stored under the
/// same state key are the same type, under the same address.
pub proof fn lemma_resource_key_injective(
    address_a: Seq<u8>,
    module_a: Seq<char>,
    name_a: Seq<char>,
    address_b: Seq<u8>,
    module_b: Seq<char>,
    name_b: Seq<char>,
)
    requires
        usable_name(module_a) && module_a.len() < 128,
        usable_name(name_a) && name_a.len() < 128,
        usable_name(module_b) && module_b.len() < 128,
        usable_name(name_b) && name_b.len() < 128,
        resource_key(address_a, module_a, name_a) == resource_key(address_b, module_b, name_b),
    ensures
        address_a == address_b,
        module_a == module_b,
        name_a == name_b,
{
    lemma_identifier_is_ascii(module_a);
    lemma_identifier_is_ascii(module_b);
    lemma_identifier_is_ascii(name_a);
    lemma_identifier_is_ascii(name_b);
    let core = crate::state_key::core_code_address();
    let pa = resource_access_vector(core, module_a, name_a);
    let pb = resource_access_vector(core, module_b, name_b);
    let k = 1 + core.len() as int;
    let ta = encoded_name(name_a) + seq![0u8];
    let tb = encoded_name(name_b) + seq![0u8];
    assert(encoded_name(module_a) + ta =~= pa.subrange(k, pa.len() as int));
    assert(encoded_name(module_b) + tb =~= pb.subrange(k, pb.len() as int));
    lemma_encoded_name_prefix(module_a, ta, module_b, tb);
    lemma_encoded_name_prefix(name_a, seq![0u8], name_b, seq![0u8]);
}

/// The state key of the resource of type `module::name` under `address`,
/// or `None` where one of the two names is not usable.
pub fn resource_state_key(address: &Address, module: &str, name: &str) -> (r: Option<StateKey>)
    ensures
        match r {
            Some(key) => usable_name(module@) && usable_name(name@) && key@ == resource_key(
                address@,
                module@,
                name@,
            ),
            None => !(usable_name(module@) && usable_name(name@)),
        },
{
    if is_usable_name(module) && is_usable_name(name) {
        let core = Address::core_code();
        let path = struct_tag_access_vector(&core.bytes, module, name);
        Some(StateKey::new(*address, path))
    } else {
        None
    }
}

} // verus!
