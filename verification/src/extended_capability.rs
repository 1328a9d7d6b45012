//! The capability linked list rooted at the capability pointer.
//!
//! Each node's first dword carries its id in bits 7:0 and the byte offset
//! of the next node in bits 15:8; a zero next pointer ends the list. The
//! walk keeps every node in discovery order (repeated ids are legal) and
//! parses a typed payload for the ids it knows, today only MSI-X. A list
//! that still has not ended after as many nodes as there are registers
//! must have revisited an offset and so can never end: the walk reports it
//! malformed instead of hanging.

use vstd::prelude::*;
use crate::config::{
    spec_capability_start, spec_has_capability_ptr, spec_space_len, CapabilityPointer, Common,
    Error, Registers, RegisterIndex,
};
use crate::msi_x;

verus! {

/// The capability id, bits 7:0 of the node's first dword.
pub open spec fn spec_cap_id(dword: u32) -> u8 {
    (dword & 0xffu32) as u8
}

/// The next pointer, bits 15:8 of the node's first dword, as a byte
/// offset into configuration space.
pub open spec fn spec_next_byte(dword: u32) -> u32 {
    (dword >> 8u32) & 0xffu32
}

/// The next pointer masked to dword alignment and scaled to a register
/// index.
pub open spec fn spec_next_index(dword: u32) -> usize {
    ((spec_next_byte(dword) & 0xfcu32) >> 2u32) as usize
}

/// The id that marks an MSI-X capability.
pub open spec fn spec_msi_x_id() -> u8 {
    0x11u8
}

/// The register indices of the chain's nodes in discovery order, starting
/// at `cur`: `None` when the list does not reach a zero next pointer
/// within `fuel` further hops, which over any full walk means a cycle.
pub open spec fn spec_chain(regs: Seq<u32>, cur: usize, fuel: nat) -> Option<Seq<usize>>
    decreases fuel,
{
    let dword = regs[cur as int];
    if spec_next_byte(dword) == 0 {
        Some(seq![cur])
    } else if fuel == 0 {
        None
    } else {
        match spec_chain(regs, spec_next_index(dword), (fuel - 1) as nat) {
            Some(rest) => Some(seq![cur] + rest),
            None => None,
        }
    }
}

/// An MSI-X capability at `off` that can be programmed: its id matches,
/// it lies past the 16 dwords of the predefined header where capability
/// structures live, and its three dwords fit inside the space.
pub open spec fn spec_usable_msi_x(regs: Seq<u32>, off: usize) -> bool {
    &&& spec_cap_id(regs[off as int]) == spec_msi_x_id()
    &&& 16 <= off
    &&& off + 2 < spec_space_len()
}

/// The offset of the first usable MSI-X capability among `offs[i..]`.
pub open spec fn spec_first_usable_msi_x(regs: Seq<u32>, offs: Seq<usize>, i: int) -> Option<usize>
    decreases offs.len() - i,
{
    if i < 0 || i >= offs.len() {
        None
    } else if spec_usable_msi_x(regs, offs[i]) {
        Some(offs[i])
    } else {
        spec_first_usable_msi_x(regs, offs, i + 1)
    }
}

/// Where the MSI-X capability of a function sits, or why it cannot be
/// found: no capability list or no usable MSI-X node reports
/// `MsiXCapabilityMissing`, a list that never ends reports
/// `MalformedCapabilityChain`.
pub open spec fn spec_locate_msi_x(regs: Seq<u32>) -> Result<usize, Error> {
    if !spec_has_capability_ptr(regs) {
        Err(Error::MsiXCapabilityMissing)
    } else {
        match spec_chain(regs, spec_capability_start(regs), spec_space_len() as nat) {
            None => Err(Error::MalformedCapabilityChain),
            Some(offs) => match spec_first_usable_msi_x(regs, offs, 0) {
                Some(off) => Ok(off),
                None => Err(Error::MsiXCapabilityMissing),
            },
        }
    }
}

pub proof fn lemma_first_usable_is_usable(regs: Seq<u32>, offs: Seq<usize>, i: int)
    requires
        spec_first_usable_msi_x(regs, offs, i) is Some,
    ensures
        spec_usable_msi_x(regs, spec_first_usable_msi_x(regs, offs, i)->0),
    decreases offs.len() - i,
{
    if i < 0 || i >= offs.len() {
    } else if spec_usable_msi_x(regs, offs[i]) {
    } else {
        lemma_first_usable_is_usable(regs, offs, i + 1);
    }
}

/// A located MSI-X capability satisfies `spec_usable_msi_x`: in
/// particular it lies past the predefined header.
pub proof fn lemma_locate_msi_x_usable(regs: Seq<u32>)
    requires
        spec_locate_msi_x(regs) is Ok,
    ensures
        spec_usable_msi_x(regs, spec_locate_msi_x(regs)->Ok_0),
{
    let offs = spec_chain(regs, spec_capability_start(regs), spec_space_len() as nat)->0;
    lemma_first_usable_is_usable(regs, offs, 0);
}

/// Walks the capability list and hands back the first usable MSI-X
/// payload, with the errors `spec_locate_msi_x` assigns.
pub fn locate_msi_x(raw: &Registers) -> (r: Result<msi_x::CapabilitySpec, Error>)
    requires
        raw.wf(),
    ensures
        match spec_locate_msi_x(raw@) {
            Ok(off) => r is Ok && r->Ok_0.parsed_from(raw@, off) && r->Ok_0.spec_offset() == off
                && spec_usable_msi_x(raw@, off),
            Err(e) => r == Result::<msi_x::CapabilitySpec, Error>::Err(e),
        },
{
    let ghost regs = raw@;
    let caps = match ExtendedCapabilities::new(raw) {
        Err(e) => {
            return Err(e);
        },
        Ok(None) => {
            return Err(Error::MsiXCapabilityMissing);
        },
        Ok(Some(caps)) => caps,
    };
    let ghost offs = spec_chain(regs, spec_capability_start(regs), spec_space_len() as nat)->0;
    match caps.find_msi_x(Ghost(regs), Ghost(offs)) {
        Some(cs) => Ok(cs),
        None => Err(Error::MsiXCapabilityMissing),
    }
}

/// A typed payload, keyed by capability id.
#[derive(Debug, Clone, Copy)]
pub enum CapabilitySpec {
    MsiX(msi_x::CapabilitySpec),
}

/// One node of the capability list.
#[derive(Debug, Clone, Copy)]
pub struct ExtendedCapability {
    id: u8,
    next_ptr: RegisterIndex,
    capability_spec: Option<CapabilitySpec>,
}

impl ExtendedCapability {
    /// The node's fields are exactly what the dwords at `offset` decode
    /// to: a payload is present iff the id is known and the payload's
    /// dwords fit inside the space.
    pub open spec fn parsed_from(&self, regs: Seq<u32>, offset: usize) -> bool {
        &&& self.spec_id() == spec_cap_id(regs[offset as int])
        &&& self.spec_next_index() == spec_next_index(regs[offset as int])
        &&& (self.spec_payload() is Some <==> self.spec_id() == spec_msi_x_id() && offset + 2
            < spec_space_len())
        &&& (self.spec_payload() matches Some(CapabilitySpec::MsiX(cs)) ==> cs.parsed_from(
            regs,
            offset,
        ))
    }

    pub closed spec fn spec_id(&self) -> u8 {
        self.id
    }

    pub closed spec fn spec_next_index(&self) -> usize {
        self.next_ptr@
    }

    pub closed spec fn spec_payload(&self) -> Option<CapabilitySpec> {
        self.capability_spec
    }

    /// Decodes the node whose first dword sits at `offset`.
    pub fn new(raw: &Registers, offset: RegisterIndex) -> (r: Self)
        requires
            raw.wf(),
            offset@ < RegisterIndex::limit(),
        ensures
            r.parsed_from(raw@, offset@),
    {
        let dword = raw.get(offset);
        let id = (dword & 0xffu32) as u8;
        let next_byte = (dword >> 8u32) & 0xffu32;
        assert(((next_byte & 0xfcu32) >> 2u32) < 64u32) by (bit_vector);
        let next_index = ((next_byte & 0xfcu32) >> 2u32) as usize;
        let next_ptr = RegisterIndex::new(next_index).unwrap();
        let capability_spec: Option<CapabilitySpec> = if id == 0x11u8 {
            match msi_x::CapabilitySpec::new(raw, offset) {
                Some(cs) => Some(CapabilitySpec::MsiX(cs)),
                None => None,
            }
        } else {
            None
        };
        Self { id, next_ptr, capability_spec }
    }

    pub fn id(&self) -> (r: u8)
        ensures
            r == self.spec_id(),
    {
        self.id
    }

    pub fn next_ptr(&self) -> (r: RegisterIndex)
        ensures
            r@ == self.spec_next_index(),
    {
        self.next_ptr
    }

    pub fn capability_spec(&self) -> (r: Option<CapabilitySpec>)
        ensures
            r == self.spec_payload(),
    {
        self.capability_spec
    }
}

/// The whole capability list in discovery order.
#[derive(Debug)]
pub struct ExtendedCapabilities(Vec<ExtendedCapability>);

impl View for ExtendedCapabilities {
    type V = Seq<ExtendedCapability>;

    closed spec fn view(&self) -> Seq<ExtendedCapability> {
        self.0@
    }
}

impl ExtendedCapabilities {
    /// The held nodes decode the chain `offs` of `regs`.
    pub open spec fn parsed_chain(&self, regs: Seq<u32>, offs: Seq<usize>) -> bool {
        &&& self@.len() == offs.len()
        &&& forall|k: int|
            0 <= k < offs.len() ==> #[trigger] self@[k].parsed_from(regs, offs[k])
    }

    /// Walks the list. `Ok(None)` exactly when the header advertises no
    /// capability pointer; `Err(MalformedCapabilityChain)` exactly when
    /// the advertised list never ends; otherwise every node, in order.
    pub fn new(raw: &Registers) -> (r: Result<Option<Self>, Error>)
        requires
            raw.wf(),
        ensures
            !spec_has_capability_ptr(raw@) ==> r == Result::<Option<Self>, Error>::Ok(
                Option::<Self>::None,
            ),
            spec_has_capability_ptr(raw@) ==> match spec_chain(
                raw@,
                spec_capability_start(raw@),
                spec_space_len() as nat,
            ) {
                Some(offs) => r matches Ok(Some(caps)) && caps.parsed_chain(raw@, offs),
                None => r == Result::<Option<Self>, Error>::Err(Error::MalformedCapabilityChain),
            },
    {
        let common = Common::new(raw);
        let capability_pointer = match CapabilityPointer::new(raw, &common) {
            None => {
                return Ok(None);
            },
            Some(cp) => cp,
        };
        let ghost regs = raw@;
        let ghost start = capability_pointer@;
        let mut cur: RegisterIndex = capability_pointer.register_index();
        let mut fuel: usize = 64;
        let mut capabilities: Vec<ExtendedCapability> = Vec::new();
        let ghost mut offs_seen: Seq<usize> = Seq::empty();
        loop
            invariant
                raw.wf(),
                regs == raw@,
                spec_has_capability_ptr(regs),
                start == spec_capability_start(regs),
                cur@ < spec_space_len(),
                capabilities@.len() == offs_seen.len(),
                forall|k: int|
                    0 <= k < offs_seen.len() ==> #[trigger] capabilities@[k].parsed_from(
                        regs,
                        offs_seen[k],
                    ),
                match spec_chain(regs, cur@, fuel as nat) {
                    Some(rest) => spec_chain(regs, start, spec_space_len() as nat) == Some(
                        offs_seen + rest,
                    ),
                    None => spec_chain(regs, start, spec_space_len() as nat) is None,
                },
            decreases fuel,
        {
            let extended_capability = ExtendedCapability::new(raw, cur);
            let dword = raw.get(cur);
            let next_byte = (dword >> 8u32) & 0xffu32;
            let ghost offs_prev = offs_seen;
            capabilities.push(extended_capability);
            proof {
                offs_seen = offs_seen + seq![cur@];
            }
            if next_byte == 0u32 {
                proof {
                    assert(spec_chain(regs, cur@, fuel as nat) == Some(seq![cur@]));
                    assert(spec_chain(regs, start, spec_space_len() as nat) == Some(offs_seen));
                    assert forall|k: int| 0 <= k < offs_seen.len() implies #[trigger] capabilities@[k].parsed_from(
                        regs,
                        offs_seen[k],
                    ) by {
                        if k < offs_prev.len() {
                            assert(capabilities@[k] == capabilities@.drop_last()[k]);
                        }
                    }
                }
                let caps = ExtendedCapabilities(capabilities);
                return Ok(Some(caps));
            }
            if fuel == 0 {
                proof {
                    assert(spec_chain(regs, cur@, 0nat) is None);
                }
                return Err(Error::MalformedCapabilityChain);
            }
            assert(((next_byte & 0xfcu32) >> 2u32) < 64u32) by (bit_vector);
            let next_index = ((next_byte & 0xfcu32) >> 2u32) as usize;
            proof {
                assert(next_index == spec_next_index(regs[cur@ as int]));
                match spec_chain(regs, next_index, (fuel - 1) as nat) {
                    Some(rest2) => {
                        assert(spec_chain(regs, cur@, fuel as nat) == Some(seq![cur@] + rest2));
                        assert((offs_prev + seq![cur@]) + rest2 =~= offs_prev + (seq![cur@]
                            + rest2));
                    },
                    None => {
                        assert(spec_chain(regs, cur@, fuel as nat) is None);
                    },
                }
            }
            fuel = fuel - 1;
            cur = RegisterIndex::new(next_index).unwrap();
        }
    }

    /// The first capability in the walk order that `usable_msi_x` holds
    /// of, if any: the payload other callers program.
    pub fn find_msi_x(&self, Ghost(regs): Ghost<Seq<u32>>, Ghost(offs): Ghost<Seq<usize>>) -> (r:
        Option<msi_x::CapabilitySpec>)
        requires
            self.parsed_chain(regs, offs),
        ensures
            match spec_first_usable_msi_x(regs, offs, 0) {
                Some(off) => r is Some && r->0.parsed_from(regs, off) && r->0.spec_offset() == off
                    && spec_usable_msi_x(regs, off),
                None => r is None,
            },
    {
        let n = self.len();
        for i in 0..n
            invariant
                n == self@.len(),
                self.parsed_chain(regs, offs),
                spec_first_usable_msi_x(regs, offs, 0) == spec_first_usable_msi_x(
                    regs,
                    offs,
                    i as int,
                ),
        {
            let capability = self.get(i);
            let mut found: Option<msi_x::CapabilitySpec> = None;
            match capability.capability_spec() {
                Some(CapabilitySpec::MsiX(cs)) => {
                    if cs.offset().as_usize() >= 16 {
                        found = Some(cs);
                    }
                },
                None => {},
            }
            match found {
                Some(cs) => {
                    proof {
                        assert(self@[i as int].parsed_from(regs, offs[i as int]));
                        assert(spec_usable_msi_x(regs, offs[i as int]));
                        assert(spec_first_usable_msi_x(regs, offs, i as int) == Some(
                            offs[i as int],
                        ));
                    }
                    return Some(cs);
                },
                None => {
                    proof {
                        assert(self@[i as int].parsed_from(regs, offs[i as int]));
                        assert(!spec_usable_msi_x(regs, offs[i as int]));
                        assert(spec_first_usable_msi_x(regs, offs, i as int)
                            == spec_first_usable_msi_x(regs, offs, i + 1));
                    }
                },
            }
        }
        None
    }

    pub fn len(&self) -> (r: usize)
        ensures
            r == self@.len(),
    {
        self.0.len()
    }

    pub fn get(&self, index: usize) -> (r: &ExtendedCapability)
        requires
            index < self@.len(),
        ensures
            *r == self@[index as int],
    {
        &self.0[index]
    }
}

} // verus!
