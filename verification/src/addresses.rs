//! Component and resource addresses: one entity-type byte, then a 26-byte
//! hash-derived suffix. Virtual account and identity addresses are derived by
//! hashing a public key and keeping the low 26 bytes of the digest.

use blake2::Digest;
use vstd::prelude::*;

verus! {

use crate::util::bytes_eq;

pub const ADDRESS_HASH_LENGTH: usize = 26;
pub const ADDRESS_LENGTH: usize = 27;

/// The tag byte of an address.
#[derive(Debug, Clone, Copy, PartialEq, Eq, Structural)]
pub enum EntityType {
    Package,
    Resource,
    NormalComponent,
    AccountComponent,
    EcdsaSecp256k1VirtualAccountComponent,
    EddsaEd25519VirtualAccountComponent,
    IdentityComponent,
    EcdsaSecp256k1VirtualIdentityComponent,
    EddsaEd25519VirtualIdentityComponent,
    EpochManager,
    Validator,
    Clock,
    AccessControllerComponent,
}

pub open spec fn spec_entity_id(e: EntityType) -> u8 {
    match e {
        EntityType::Package => 0,
        EntityType::Resource => 1,
        EntityType::NormalComponent => 2,
        EntityType::AccountComponent => 3,
        EntityType::EcdsaSecp256k1VirtualAccountComponent => 4,
        EntityType::EddsaEd25519VirtualAccountComponent => 5,
        EntityType::IdentityComponent => 6,
        EntityType::EcdsaSecp256k1VirtualIdentityComponent => 7,
        EntityType::EddsaEd25519VirtualIdentityComponent => 8,
        EntityType::EpochManager => 9,
        EntityType::Validator => 10,
        EntityType::Clock => 11,
        EntityType::AccessControllerComponent => 12,
    }
}

impl EntityType {
    /// The tag byte of this entity type.
    pub fn id(&self) -> (r: u8)
        ensures
            r == spec_entity_id(*self),
    {
        match self {
            EntityType::Package => 0,
            EntityType::Resource => 1,
            EntityType::NormalComponent => 2,
            EntityType::AccountComponent => 3,
            EntityType::EcdsaSecp256k1VirtualAccountComponent => 4,
            EntityType::EddsaEd25519VirtualAccountComponent => 5,
            EntityType::IdentityComponent => 6,
            EntityType::EcdsaSecp256k1VirtualIdentityComponent => 7,
            EntityType::EddsaEd25519VirtualIdentityComponent => 8,
            EntityType::EpochManager => 9,
            EntityType::Validator => 10,
            EntityType::Clock => 11,
            EntityType::AccessControllerComponent => 12,
        }
    }

    /// The entity type a tag byte names, if any.
    pub fn try_from_id(id: u8) -> (r: Option<EntityType>)
        ensures
            match r {
                Some(e) => spec_entity_id(e) == id,
                None => id > 12,
            },
    {
        match id {
            0 => Some(EntityType::Package),
            1 => Some(EntityType::Resource),
            2 => Some(EntityType::NormalComponent),
            3 => Some(EntityType::AccountComponent),
            4 => Some(EntityType::EcdsaSecp256k1VirtualAccountComponent),
            5 => Some(EntityType::EddsaEd25519VirtualAccountComponent),
            6 => Some(EntityType::IdentityComponent),
            7 => Some(EntityType::EcdsaSecp256k1VirtualIdentityComponent),
            8 => Some(EntityType::EddsaEd25519VirtualIdentityComponent),
            9 => Some(EntityType::EpochManager),
            10 => Some(EntityType::Validator),
            11 => Some(EntityType::Clock),
            12 => Some(EntityType::AccessControllerComponent),
            _ => None,
        }
    }
}

/// Rejections of a malformed address.
#[derive(Debug)]
pub enum AddressError {
    InvalidEntityTypeId(u8),
    InvalidLength(usize),
    HexDecodingError,
}

/// An instance of a blueprint, addressed in the ledger state.
#[derive(Debug, Clone)]
pub enum ComponentAddress {
    Normal(Vec<u8>),
    Account(Vec<u8>),
    Identity(Vec<u8>),
    Clock(Vec<u8>),
    EpochManager(Vec<u8>),
    Validator(Vec<u8>),
    EcdsaSecp256k1VirtualAccount(Vec<u8>),
    EddsaEd25519VirtualAccount(Vec<u8>),
    EcdsaSecp256k1VirtualIdentity(Vec<u8>),
    EddsaEd25519VirtualIdentity(Vec<u8>),
    AccessController(Vec<u8>),
}

impl ComponentAddress {
    /// The 26-byte hash-derived suffix.
    pub open spec fn payload(&self) -> Seq<u8> {
        match self {
            ComponentAddress::Normal(v) => v@,
            ComponentAddress::Account(v) => v@,
            ComponentAddress::Identity(v) => v@,
            ComponentAddress::Clock(v) => v@,
            ComponentAddress::EpochManager(v) => v@,
            ComponentAddress::Validator(v) => v@,
            ComponentAddress::EcdsaSecp256k1VirtualAccount(v) => v@,
            ComponentAddress::EddsaEd25519VirtualAccount(v) => v@,
            ComponentAddress::EcdsaSecp256k1VirtualIdentity(v) => v@,
            ComponentAddress::EddsaEd25519VirtualIdentity(v) => v@,
            ComponentAddress::AccessController(v) => v@,
        }
    }

    /// The entity type the variant stands for.
    pub open spec fn entity_type(&self) -> EntityType {
        match self {
            ComponentAddress::Normal(_) => EntityType::NormalComponent,
            ComponentAddress::Account(_) => EntityType::AccountComponent,
            ComponentAddress::Identity(_) => EntityType::IdentityComponent,
            ComponentAddress::Clock(_) => EntityType::Clock,
            ComponentAddress::EpochManager(_) => EntityType::EpochManager,
            ComponentAddress::Validator(_) => EntityType::Validator,
            ComponentAddress::EcdsaSecp256k1VirtualAccount(_) =>
                EntityType::EcdsaSecp256k1VirtualAccountComponent,
            ComponentAddress::EddsaEd25519VirtualAccount(_) =>
                EntityType::EddsaEd25519VirtualAccountComponent,
            ComponentAddress::EcdsaSecp256k1VirtualIdentity(_) =>
                EntityType::EcdsaSecp256k1VirtualIdentityComponent,
            ComponentAddress::EddsaEd25519VirtualIdentity(_) =>
                EntityType::EddsaEd25519VirtualIdentityComponent,
            ComponentAddress::AccessController(_) => EntityType::AccessControllerComponent,
        }
    }

    /// A well-formed address carries exactly 26 suffix bytes.
    pub open spec fn wf(&self) -> bool {
        self.payload().len() == ADDRESS_HASH_LENGTH
    }

    /// The raw 27-byte form: the entity tag byte, then the suffix.
    pub open spec fn raw_bytes(&self) -> Seq<u8> {
        seq![spec_entity_id(self.entity_type())] + self.payload()
    }
}

} // verus!

verus! {

/// The lowercase hex digit of a nibble.
pub open spec fn spec_hex_digit(n: int) -> char {
    if n == 0 { '0' } else if n == 1 { '1' } else if n == 2 { '2' } else if n == 3 { '3' }
    else if n == 4 { '4' } else if n == 5 { '5' } else if n == 6 { '6' } else if n == 7 { '7' }
    else if n == 8 { '8' } else if n == 9 { '9' } else if n == 10 { 'a' } else if n == 11 { 'b' }
    else if n == 12 { 'c' } else if n == 13 { 'd' } else if n == 14 { 'e' } else { 'f' }
}

/// The lowercase hex spelling of bytes, two digits per byte, high nibble
/// first.
pub open spec fn spec_hex_of(bytes: Seq<u8>) -> Seq<char>
    decreases bytes.len(),
{
    if bytes.len() == 0 {
        Seq::empty()
    } else {
        seq![spec_hex_digit(bytes[0] as int / 16), spec_hex_digit(bytes[0] as int % 16)] + spec_hex_of(
            bytes.drop_first(),
        )
    }
}

/// The value of a hex digit, either case, if it is one.
pub open spec fn spec_hex_val(c: char) -> Option<int> {
    if '0' <= c && c <= '9' {
        Some(c as int - '0' as int)
    } else if 'a' <= c && c <= 'f' {
        Some(c as int - 'a' as int + 10)
    } else if 'A' <= c && c <= 'F' {
        Some(c as int - 'A' as int + 10)
    } else {
        None
    }
}

/// The bytes a hex string spells, if it is well formed: even length, hex
/// digits only.
pub open spec fn spec_hex_decode(s: Seq<char>) -> Option<Seq<u8>>
    decreases s.len(),
{
    if s.len() == 0 {
        Some(Seq::empty())
    } else if s.len() == 1 {
        None
    } else {
        match (spec_hex_val(s[0]), spec_hex_val(s[1])) {
            (Some(hi), Some(lo)) => match spec_hex_decode(s.skip(2)) {
                Some(rest) => Some(seq![(hi * 16 + lo) as u8] + rest),
                None => None,
            },
            _ => None,
        }
    }
}

/// Relies on hex::encode: the lowercase hex spelling of the bytes, two
/// digits per byte, high nibble first.
#[verifier::external_body]
pub fn hex_encode(bytes: &[u8]) -> (r: String)
    ensures
        r@ == spec_hex_of(bytes@),
{
    hex::encode(bytes)
}

/// Relies on hex::decode: succeeds exactly on even-length strings of hex
/// digits of either case, and yields the spelled bytes.
#[verifier::external_body]
pub fn hex_decode(s: &str) -> (r: Option<Vec<u8>>)
    ensures
        match r {
            Some(v) => spec_hex_decode(s@) == Some(v@),
            None => spec_hex_decode(s@) is None,
        },
{
    match hex::decode(s) {
        Ok(v) => Some(v),
        Err(_) => None,
    }
}

/// A digest is a function of the hashed bytes alone.
pub uninterp spec fn hash_of(data: Seq<u8>) -> Seq<u8>;

/// Relies on blake2::Blake2b with 32-byte output: the digest depends on the
/// input bytes alone and is 32 bytes long.
#[verifier::external_body]
pub fn blake2b_256(data: &[u8]) -> (r: Vec<u8>)
    ensures
        r@ == hash_of(data@),
        r@.len() == 32,
{
    let mut hasher: blake2::Blake2b<blake2::digest::consts::U32> = blake2::Blake2b::new();
    hasher.update(data);
    hasher.finalize().to_vec()
}

/// A public key, by its curve.
#[derive(Debug, Clone)]
pub enum PublicKey {
    EcdsaSecp256k1(Vec<u8>),
    EddsaEd25519(Vec<u8>),
}

impl PublicKey {
    pub open spec fn key_bytes(&self) -> Seq<u8> {
        match self {
            PublicKey::EcdsaSecp256k1(v) => v@,
            PublicKey::EddsaEd25519(v) => v@,
        }
    }
}

impl ComponentAddress {
    pub fn to_array_without_entity_id(&self) -> (r: Vec<u8>)
        ensures
            r@ == self.payload(),
    {
        let v = match self {
            ComponentAddress::Normal(v) => v,
            ComponentAddress::Account(v) => v,
            ComponentAddress::Identity(v) => v,
            ComponentAddress::Clock(v) => v,
            ComponentAddress::EpochManager(v) => v,
            ComponentAddress::Validator(v) => v,
            ComponentAddress::EcdsaSecp256k1VirtualAccount(v) => v,
            ComponentAddress::EddsaEd25519VirtualAccount(v) => v,
            ComponentAddress::EcdsaSecp256k1VirtualIdentity(v) => v,
            ComponentAddress::EddsaEd25519VirtualIdentity(v) => v,
            ComponentAddress::AccessController(v) => v,
        };
        let r = v.clone();
        proof {
            assert(r@ =~= v@);
        }
        r
    }

    pub fn to_vec(&self) -> (r: Vec<u8>)
        ensures
            r@ == self.raw_bytes(),
    {
        let mut buf: Vec<u8> = Vec::new();
        buf.push(self.entity_type_of().id());
        let mut payload = self.to_array_without_entity_id();
        buf.append(&mut payload);
        proof {
            assert(buf@ =~= self.raw_bytes());
        }
        buf
    }

    /// The entity type of this address.
    pub fn entity_type_of(&self) -> (r: EntityType)
        ensures
            r == self.entity_type(),
    {
        match self {
            ComponentAddress::Normal(_) => EntityType::NormalComponent,
            ComponentAddress::Account(_) => EntityType::AccountComponent,
            ComponentAddress::Identity(_) => EntityType::IdentityComponent,
            ComponentAddress::Clock(_) => EntityType::Clock,
            ComponentAddress::EpochManager(_) => EntityType::EpochManager,
            ComponentAddress::Validator(_) => EntityType::Validator,
            ComponentAddress::EcdsaSecp256k1VirtualAccount(_) =>
                EntityType::EcdsaSecp256k1VirtualAccountComponent,
            ComponentAddress::EddsaEd25519VirtualAccount(_) =>
                EntityType::EddsaEd25519VirtualAccountComponent,
            ComponentAddress::EcdsaSecp256k1VirtualIdentity(_) =>
                EntityType::EcdsaSecp256k1VirtualIdentityComponent,
            ComponentAddress::EddsaEd25519VirtualIdentity(_) =>
                EntityType::EddsaEd25519VirtualIdentityComponent,
            ComponentAddress::AccessController(_) => EntityType::AccessControllerComponent,
        }
    }

    pub fn to_hex(&self) -> (r: String)
        ensures
            r@ == spec_hex_of(self.raw_bytes()),
    {
        let v = self.to_vec();
        hex_encode(v.as_slice())
    }

    /// Reads an address from its 27-byte raw form. Succeeds exactly on 27
    /// bytes whose first byte tags a component entity.
    pub fn try_from(slice: &[u8]) -> (r: Result<Self, AddressError>)
        ensures
            match r {
                Ok(a) => slice@.len() == 27 && a.wf() && a.raw_bytes() == slice@,
                Err(e) => match e {
                    AddressError::InvalidLength(n) => n == slice@.len() && slice@.len() != 27,
                    AddressError::InvalidEntityTypeId(b) => slice@.len() == 27 && b == slice@[0]
                        && (forall|a2: ComponentAddress| spec_entity_id(a2.entity_type())
                            != slice@[0]),
                    _ => false,
                },
            },
    {
        if slice.len() != 27 {
            return Err(AddressError::InvalidLength(slice.len()));
        }
        let tag = slice[0];
        let payload = vstd::slice::slice_to_vec(vstd::slice::slice_subrange(slice, 1, 27));
        let a = match EntityType::try_from_id(tag) {
            Some(EntityType::NormalComponent) => ComponentAddress::Normal(payload),
            Some(EntityType::AccountComponent) => ComponentAddress::Account(payload),
            Some(EntityType::IdentityComponent) => ComponentAddress::Identity(payload),
            Some(EntityType::Clock) => ComponentAddress::Clock(payload),
            Some(EntityType::EpochManager) => ComponentAddress::EpochManager(payload),
            Some(EntityType::Validator) => ComponentAddress::Validator(payload),
            Some(EntityType::EcdsaSecp256k1VirtualAccountComponent) =>
                ComponentAddress::EcdsaSecp256k1VirtualAccount(payload),
            Some(EntityType::EddsaEd25519VirtualAccountComponent) =>
                ComponentAddress::EddsaEd25519VirtualAccount(payload),
            Some(EntityType::EcdsaSecp256k1VirtualIdentityComponent) =>
                ComponentAddress::EcdsaSecp256k1VirtualIdentity(payload),
            Some(EntityType::EddsaEd25519VirtualIdentityComponent) =>
                ComponentAddress::EddsaEd25519VirtualIdentity(payload),
            Some(EntityType::AccessControllerComponent) => ComponentAddress::AccessController(
                payload,
            ),
            Some(EntityType::Resource) | Some(EntityType::Package) | None => {
                return Err(AddressError::InvalidEntityTypeId(tag));
            }
        };
        proof {
            assert(a.raw_bytes() =~= slice@);
        }
        Ok(a)
    }

    /// Reads an address from its hex spelling.
    pub fn try_from_hex(hex_str: &str) -> (r: Result<Self, AddressError>)
        ensures
            r matches Ok(a) ==> a.wf() && spec_hex_decode(hex_str@) == Some(a.raw_bytes()),
            spec_hex_decode(hex_str@) is None ==> (r matches Err(e) && e is HexDecodingError),
    {
        let bytes = match hex_decode(hex_str) {
            Some(v) => v,
            None => { return Err(AddressError::HexDecodingError); }
        };
        Self::try_from(bytes.as_slice())
    }

    /// The virtual account address a public key controls: the low 26 bytes
    /// of the key's digest, under the matching virtual-account entity type.
    pub fn virtual_account_from_public_key(public_key: &PublicKey) -> (r: ComponentAddress)
        ensures
            r.wf(),
            r.payload() == hash_of(public_key.key_bytes()).subrange(6, 32),
            public_key is EcdsaSecp256k1 ==> r is EcdsaSecp256k1VirtualAccount,
            public_key is EddsaEd25519 ==> r is EddsaEd25519VirtualAccount,
    {
        match public_key {
            PublicKey::EcdsaSecp256k1(key) => {
                let digest = blake2b_256(key.as_slice());
                let low = vstd::slice::slice_to_vec(
                    vstd::slice::slice_subrange(digest.as_slice(), 6, 32),
                );
                ComponentAddress::EcdsaSecp256k1VirtualAccount(low)
            }
            PublicKey::EddsaEd25519(key) => {
                let digest = blake2b_256(key.as_slice());
                let low = vstd::slice::slice_to_vec(
                    vstd::slice::slice_subrange(digest.as_slice(), 6, 32),
                );
                ComponentAddress::EddsaEd25519VirtualAccount(low)
            }
        }
    }

    /// The virtual identity address a public key controls.
    pub fn virtual_identity_from_public_key(public_key: &PublicKey) -> (r: ComponentAddress)
        ensures
            r.wf(),
            r.payload() == hash_of(public_key.key_bytes()).subrange(6, 32),
            public_key is EcdsaSecp256k1 ==> r is EcdsaSecp256k1VirtualIdentity,
            public_key is EddsaEd25519 ==> r is EddsaEd25519VirtualIdentity,
    {
        match public_key {
            PublicKey::EcdsaSecp256k1(key) => {
                let digest = blake2b_256(key.as_slice());
                let low = vstd::slice::slice_to_vec(
                    vstd::slice::slice_subrange(digest.as_slice(), 6, 32),
                );
                ComponentAddress::EcdsaSecp256k1VirtualIdentity(low)
            }
            PublicKey::EddsaEd25519(key) => {
                let digest = blake2b_256(key.as_slice());
                let low = vstd::slice::slice_to_vec(
                    vstd::slice::slice_subrange(digest.as_slice(), 6, 32),
                );
                ComponentAddress::EddsaEd25519VirtualIdentity(low)
            }
        }
    }

    /// A copy with the same entity type and suffix.
    pub fn duplicate(&self) -> (r: Self)
        ensures
            r.entity_type() == self.entity_type(),
            r.payload() == self.payload(),
    {
        let payload = self.to_array_without_entity_id();
        match self {
            ComponentAddress::Normal(_) => ComponentAddress::Normal(payload),
            ComponentAddress::Account(_) => ComponentAddress::Account(payload),
            ComponentAddress::Identity(_) => ComponentAddress::Identity(payload),
            ComponentAddress::Clock(_) => ComponentAddress::Clock(payload),
            ComponentAddress::EpochManager(_) => ComponentAddress::EpochManager(payload),
            ComponentAddress::Validator(_) => ComponentAddress::Validator(payload),
            ComponentAddress::EcdsaSecp256k1VirtualAccount(_) =>
                ComponentAddress::EcdsaSecp256k1VirtualAccount(payload),
            ComponentAddress::EddsaEd25519VirtualAccount(_) =>
                ComponentAddress::EddsaEd25519VirtualAccount(payload),
            ComponentAddress::EcdsaSecp256k1VirtualIdentity(_) =>
                ComponentAddress::EcdsaSecp256k1VirtualIdentity(payload),
            ComponentAddress::EddsaEd25519VirtualIdentity(_) =>
                ComponentAddress::EddsaEd25519VirtualIdentity(payload),
            ComponentAddress::AccessController(_) => ComponentAddress::AccessController(payload),
        }
    }
}

/// Equality of addresses: same entity type and same suffix.
pub fn component_address_eq(a: &ComponentAddress, b: &ComponentAddress) -> (r: bool)
    ensures
        r == (a.entity_type() == b.entity_type() && a.payload() == b.payload()),
{
    let ta = a.entity_type_of().id();
    let tb = b.entity_type_of().id();
    if ta != tb {
        proof {
            assert(a.entity_type() != b.entity_type());
        }
        return false;
    }
    let pa = a.to_array_without_entity_id();
    let pb = b.to_array_without_entity_id();
    proof {
        assert(spec_entity_id(a.entity_type()) == spec_entity_id(b.entity_type())
            ==> a.entity_type() == b.entity_type());
    }
    bytes_eq(pa.as_slice(), pb.as_slice())
}

/// A resource manager's address.
#[derive(Debug, Clone)]
pub enum ResourceAddress {
    Normal(Vec<u8>),
}

impl ResourceAddress {
    pub open spec fn payload(&self) -> Seq<u8> {
        match self {
            ResourceAddress::Normal(v) => v@,
        }
    }

    pub open spec fn wf(&self) -> bool {
        self.payload().len() == ADDRESS_HASH_LENGTH
    }

    pub open spec fn raw_bytes(&self) -> Seq<u8> {
        seq![spec_entity_id(EntityType::Resource)] + self.payload()
    }

    /// The 26-byte suffix.
    pub fn raw(&self) -> (r: Vec<u8>)
        ensures
            r@ == self.payload(),
    {
        match self {
            ResourceAddress::Normal(v) => {
                let r = v.clone();
                proof {
                    assert(r@ =~= v@);
                }
                r
            }
        }
    }

    pub fn to_vec(&self) -> (r: Vec<u8>)
        ensures
            r@ == self.raw_bytes(),
    {
        let mut buf: Vec<u8> = Vec::new();
        buf.push(EntityType::Resource.id());
        let mut payload = self.raw();
        buf.append(&mut payload);
        proof {
            assert(buf@ =~= self.raw_bytes());
        }
        buf
    }

    pub fn to_hex(&self) -> (r: String)
        ensures
            r@ == spec_hex_of(self.raw_bytes()),
    {
        let v = self.to_vec();
        hex_encode(v.as_slice())
    }

    /// Reads a resource address from its 27-byte raw form.
    pub fn try_from(slice: &[u8]) -> (r: Result<Self, AddressError>)
        ensures
            match r {
                Ok(a) => slice@.len() == 27 && a.wf() && a.raw_bytes() == slice@,
                Err(e) => match e {
                    AddressError::InvalidLength(n) => n == slice@.len() && slice@.len() != 27,
                    AddressError::InvalidEntityTypeId(b) => slice@.len() == 27 && b == slice@[0]
                        && slice@[0] != spec_entity_id(EntityType::Resource),
                    _ => false,
                },
            },
    {
        if slice.len() != 27 {
            return Err(AddressError::InvalidLength(slice.len()));
        }
        let tag = slice[0];
        if tag != EntityType::Resource.id() {
            return Err(AddressError::InvalidEntityTypeId(tag));
        }
        let payload = vstd::slice::slice_to_vec(vstd::slice::slice_subrange(slice, 1, 27));
        let a = ResourceAddress::Normal(payload);
        proof {
            assert(a.raw_bytes() =~= slice@);
        }
        Ok(a)
    }

    /// Reads a resource address from its hex spelling.
    pub fn try_from_hex(hex_str: &str) -> (r: Result<Self, AddressError>)
        ensures
            r matches Ok(a) ==> a.wf() && spec_hex_decode(hex_str@) == Some(a.raw_bytes()),
            spec_hex_decode(hex_str@) is None ==> (r matches Err(e) && e is HexDecodingError),
    {
        let bytes = match hex_decode(hex_str) {
            Some(v) => v,
            None => { return Err(AddressError::HexDecodingError); }
        };
        Self::try_from(bytes.as_slice())
    }
}

} // verus!
