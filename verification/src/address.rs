//! Stellar addresses as plain values, and their XDR (`ScVal::Address`) encoding.

use vstd::prelude::*;

verus! {

broadcast use vstd::array::group_array_axioms;

/// Which kind of ledger entity an address names.
#[derive(Clone, Copy, Debug, PartialEq, Eq, Structural)]
pub enum AddressKind {
    /// A classic account, named by its ed25519 public key.
    Account,
    /// A contract, named by its 32-byte contract hash.
    Contract,
}

/// A Stellar address: the kind of entity and its 32-byte key.
#[derive(Clone, Copy, Debug, PartialEq, Eq)]
pub struct Address {
    pub kind: AddressKind,
    pub key: [u8; 32],
}

/// The XDR bytes that precede the key: the `ScVal` tag of an address (18),
/// the `ScAddress` tag, and for an account the `PublicKey` tag (ed25519, 0).
pub open spec fn xdr_header(kind: AddressKind) -> Seq<u8> {
    match kind {
        AddressKind::Account => seq![0u8, 0u8, 0u8, 18u8, 0u8, 0u8, 0u8, 0u8, 0u8, 0u8, 0u8, 0u8],
        AddressKind::Contract => seq![0u8, 0u8, 0u8, 18u8, 0u8, 0u8, 0u8, 1u8],
    }
}

/// The XDR encoding of an address as an `ScVal`.
pub open spec fn address_xdr(a: Address) -> Seq<u8> {
    xdr_header(a.kind) + a.key@
}

impl Address {
    /// The address of the account with the given ed25519 public key.
    pub fn account(key: [u8; 32]) -> (r: Address)
        ensures
            r.kind == AddressKind::Account,
            r.key == key,
    {
        Address { kind: AddressKind::Account, key }
    }

    /// The address of the contract with the given hash.
    pub fn contract(key: [u8; 32]) -> (r: Address)
        ensures
            r.kind == AddressKind::Contract,
            r.key == key,
    {
        Address { kind: AddressKind::Contract, key }
    }

    /// Whether two addresses are the same.
    pub fn same_as(&self, other: &Address) -> (r: bool)
        ensures
            r == (*self == *other),
    {
        if self.kind != other.kind {
            return false;
        }
        let mut i: usize = 0;
        while i < 32
            invariant
                i <= 32,
                forall|j: int| 0 <= j < i ==> self.key@[j] == other.key@[j],
            decreases 32 - i,
        {
            if self.key[i] != other.key[i] {
                assert(self.key@[i as int] != other.key@[i as int]);
                return false;
            }
            i = i + 1;
        }
        assert(self.key =~= other.key);
        true
    }

    /// The XDR encoding of this address as an `ScVal`.
    pub fn to_xdr(&self) -> (v: Vec<u8>)
        ensures
            v@ == address_xdr(*self),
    {
        let mut v: Vec<u8> = Vec::new();
        v.push(0u8);
        v.push(0u8);
        v.push(0u8);
        v.push(18u8);
        v.push(0u8);
        v.push(0u8);
        v.push(0u8);
        match self.kind {
            AddressKind::Account => {
                v.push(0u8);
                v.push(0u8);
                v.push(0u8);
                v.push(0u8);
                v.push(0u8);
            },
            AddressKind::Contract => {
                v.push(1u8);
            },
        }
        let ghost head = v@;
        assert(head =~= xdr_header(self.kind));
        let mut i: usize = 0;
        while i < 32
            invariant
                i <= 32,
                head == xdr_header(self.kind),
                v@ =~= head + self.key@.take(i as int),
            decreases 32 - i,
        {
            v.push(self.key[i]);
            assert(self.key@.take(i + 1) =~= self.key@.take(i as int).push(self.key@[i as int]));
            i = i + 1;
        }
        assert(self.key@.take(32) =~= self.key@);
        v
    }

    /// Decodes an `ScVal` address from its XDR bytes; `None` when the bytes
    /// are not the encoding of an account or contract address.
    pub fn from_xdr(bytes: &[u8]) -> (r: Option<Address>)
        ensures
            match r {
                Some(a) => bytes@ == address_xdr(a),
                None => forall|a: Address| bytes@ != #[trigger] address_xdr(a),
            },
    {
        let n = bytes.len();
        if n < 8 || bytes[0] != 0 || bytes[1] != 0 || bytes[2] != 0 || bytes[3] != 18
            || bytes[4] != 0 || bytes[5] != 0 || bytes[6] != 0 {
            proof {
                assert forall|a: Address| bytes@ != #[trigger] address_xdr(a) by {
                    if bytes@ == address_xdr(a) {
                        assert(address_xdr(a)[3] == 18u8);
                    }
                }
            }
            return None;
        }
        let account = bytes[7] == 0 && n == 44 && bytes[8] == 0 && bytes[9] == 0 && bytes[10] == 0
            && bytes[11] == 0;
        let contract = bytes[7] == 1 && n == 40;
        if !account && !contract {
            proof {
                assert forall|a: Address| bytes@ != #[trigger] address_xdr(a) by {
                    if bytes@ == address_xdr(a) {
                        assert(address_xdr(a)[7] == bytes@[7]);
                        match a.kind {
                            AddressKind::Account => {
                                assert(address_xdr(a)[8] == 0u8);
                                assert(address_xdr(a)[9] == 0u8);
                                assert(address_xdr(a)[10] == 0u8);
                                assert(address_xdr(a)[11] == 0u8);
                            },
                            AddressKind::Contract => {},
                        }
                    }
                }
            }
            return None;
        }
        let kind = if account { AddressKind::Account } else { AddressKind::Contract };
        let start: usize = if account { 12 } else { 8 };
        let mut key: [u8; 32] = [0u8; 32];
        let mut i: usize = 0;
        while i < 32
            invariant
                i <= 32,
                n == bytes@.len(),
                start + 32 == n,
                start <= 12,
                n <= 44,
                forall|j: int| 0 <= j < i ==> key@[j] == bytes@[start + j],
            decreases 32 - i,
        {
            key[i] = bytes[start + i];
            i = i + 1;
        }
        let a = Address { kind, key };
        proof {
            assert(bytes@.subrange(0, start as int) =~= xdr_header(kind));
            assert(bytes@.subrange(start as int, n as int) =~= key@);
            assert(bytes@ =~= bytes@.subrange(0, start as int) + bytes@.subrange(start as int, n as int));
        }
        Some(a)
    }
}

/// Two addresses with the same encoding are the same address.
pub proof fn lemma_address_xdr_injective(a: Address, b: Address)
    requires
        address_xdr(a) == address_xdr(b),
    ensures
        a == b,
{
    let ha = xdr_header(a.kind);
    let hb = xdr_header(b.kind);
    assert(address_xdr(a)[7] == ha[7]);
    assert(address_xdr(b)[7] == hb[7]);
    assert(a.kind == b.kind);
    assert(a.key@ =~= address_xdr(a).subrange(ha.len() as int, address_xdr(a).len() as int));
    assert(b.key@ =~= address_xdr(b).subrange(hb.len() as int, address_xdr(b).len() as int));
    assert(a.key =~= b.key);
}

} // verus!
