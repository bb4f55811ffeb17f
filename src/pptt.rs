//! Processor Properties Topology Table: a header followed by one root
//! processor hierarchy node and one leaf node per virtual CPU.
use crate::codec::{le16, le32, lemma_le_lengths, push_slice, push_u16, push_u32};
use crate::sdt::{
    fresh_header, guest_write, header_bytes, lemma_header_len, lemma_sealed_header_valid,
    seal_header, sealed_header, AcpiError, GuestWrite, Sdt, SdtHeader, SDT_HEADER_SIZE,
};
use vstd::prelude::*;

verus! {

/// "PPTT"
pub const PPTT_SIGNATURE: [u8; 4] = [0x50, 0x50, 0x54, 0x54];

/// Byte size of one processor hierarchy node.
pub const PROCESSOR_NODE_SIZE: u32 = 20;

/// Root node flags: not a leaf, not a thread, valid processor id.
pub const ROOT_NODE_FLAGS: u32 = 0x2;

/// Leaf node flags: a leaf, not a thread, valid processor id.
pub const LEAF_NODE_FLAGS: u32 = 0xA;

/// One node of the processor hierarchy.
#[derive(Clone, Copy, Debug, Default)]
pub struct ProcessorHierarchyNode {
    pub node_type: u8,
    pub length: u8,
    pub reserved: u16,
    pub flags: u32,
    pub parent: u32,
    pub acpi_processor_id: u32,
    pub num_private_resources: u32,
}

pub open spec fn node_bytes(n: ProcessorHierarchyNode) -> Seq<u8> {
    seq![n.node_type, n.length] + le16(n.reserved) + le32(n.flags) + le32(n.parent) + le32(
        n.acpi_processor_id,
    ) + le32(n.num_private_resources)
}

/// The root node, which every leaf names as its parent.
pub open spec fn root_node() -> ProcessorHierarchyNode {
    ProcessorHierarchyNode {
        node_type: 0,
        length: 20,
        reserved: 0,
        flags: ROOT_NODE_FLAGS,
        parent: 0,
        acpi_processor_id: 0,
        num_private_resources: 0,
    }
}

/// The leaf node of processor `cpu`; its parent is the root node, which sits
/// right after the header.
pub open spec fn leaf_node(cpu: u8) -> ProcessorHierarchyNode {
    ProcessorHierarchyNode {
        node_type: 0,
        length: 20,
        reserved: 0,
        flags: LEAF_NODE_FLAGS,
        parent: SDT_HEADER_SIZE as u32,
        acpi_processor_id: cpu as u32,
        num_private_resources: 0,
    }
}

/// Leaf nodes of processors `0..n`, in order.
pub open spec fn leaf_nodes_bytes(n: nat) -> Seq<u8>
    decreases n,
{
    if n == 0 {
        seq![]
    } else {
        leaf_nodes_bytes((n - 1) as nat) + node_bytes(leaf_node((n - 1) as u8))
    }
}

impl ProcessorHierarchyNode {
    pub fn as_bytes(&self) -> (r: Vec<u8>)
        ensures
            r@ == node_bytes(*self),
            r@.len() == 20,
    {
        proof {
            lemma_le_lengths();
        }
        let mut v: Vec<u8> = Vec::new();
        v.push(self.node_type);
        v.push(self.length);
        push_u16(&mut v, self.reserved);
        push_u32(&mut v, self.flags);
        push_u32(&mut v, self.parent);
        push_u32(&mut v, self.acpi_processor_id);
        push_u32(&mut v, self.num_private_resources);
        assert(v@ =~= node_bytes(*self));
        v
    }
}

/// The model of a PPTT.
pub struct PpttView {
    pub header: SdtHeader,
    pub proc_hierarchy_node: Seq<u8>,
}

pub open spec fn pptt_image(p: PpttView) -> Seq<u8> {
    header_bytes(p.header) + p.proc_hierarchy_node
}

/// Processor Properties Topology Table.
#[derive(Debug)]
pub struct Pptt {
    header: SdtHeader,
    proc_hierarchy_node: Vec<u8>,
}

impl View for Pptt {
    type V = PpttView;

    closed spec fn view(&self) -> PpttView {
        PpttView { header: self.header, proc_hierarchy_node: self.proc_hierarchy_node@ }
    }
}

impl Pptt {
    #[verifier::type_invariant]
    spec fn length_matches(&self) -> bool {
        self.header.length == SDT_HEADER_SIZE + self.proc_hierarchy_node@.len()
    }

    /// The topology of `nr_cpus` processors under a single root.
    pub fn new(oem_id: [u8; 6], oem_table_id: [u8; 8], oem_revision: u32, nr_cpus: u8) -> (r: Self)
        ensures
            r@ == (PpttView {
                header: fresh_header(
                    PPTT_SIGNATURE,
                    (SDT_HEADER_SIZE + PROCESSOR_NODE_SIZE * (nr_cpus + 1)) as u32,
                    2,
                    oem_id,
                    oem_table_id,
                    oem_revision,
                ),
                proc_hierarchy_node: node_bytes(root_node()) + leaf_nodes_bytes(nr_cpus as nat),
            }),
    {
        let root = ProcessorHierarchyNode {
            node_type: 0,
            length: 20,
            reserved: 0,
            flags: ROOT_NODE_FLAGS,
            parent: 0,
            acpi_processor_id: 0,
            num_private_resources: 0,
        };
        let mut nodes = root.as_bytes();
        let mut cpu: u8 = 0;
        while cpu < nr_cpus
            invariant
                cpu <= nr_cpus,
                nodes@ == node_bytes(root_node()) + leaf_nodes_bytes(cpu as nat),
                nodes@.len() == PROCESSOR_NODE_SIZE * (cpu + 1),
            decreases nr_cpus - cpu,
        {
            let leaf = ProcessorHierarchyNode {
                node_type: 0,
                length: 20,
                reserved: 0,
                flags: LEAF_NODE_FLAGS,
                parent: SDT_HEADER_SIZE as u32,
                acpi_processor_id: cpu as u32,
                num_private_resources: 0,
            };
            let leaf_bytes = leaf.as_bytes();
            push_slice(&mut nodes, leaf_bytes.as_slice());
            assert(nodes@ =~= node_bytes(root_node()) + leaf_nodes_bytes((cpu + 1) as nat));
            cpu = cpu + 1;
        }
        let header = SdtHeader::new(
            PPTT_SIGNATURE,
            (SDT_HEADER_SIZE + nodes.len()) as u32,
            2,
            oem_id,
            oem_table_id,
            oem_revision,
        );
        Pptt { header, proc_hierarchy_node: nodes }
    }
}

impl Sdt for Pptt {
    open spec fn image(&self) -> Seq<u8> {
        pptt_image(self@)
    }

    open spec fn length_field(&self) -> nat {
        self@.header.length as nat
    }

    open spec fn sealed_view(&self) -> PpttView {
        PpttView { header: sealed_header(self@.header, self@.proc_hierarchy_node), ..self@ }
    }

    fn len(&self) -> (r: usize) {
        proof {
            use_type_invariant(self);
            lemma_header_len(self@.header);
        }
        assert(self.length_field() == self.header.length);
        self.header.length as usize
    }

    fn write_to_guest(&mut self, address: u64) -> (r: Result<GuestWrite, AcpiError>) {
        proof {
            use_type_invariant(&*self);
        }
        let mut header = self.header;
        seal_header(&mut header, self.proc_hierarchy_node.as_slice());
        self.header = header;
        let mut bytes = header.as_bytes();
        push_slice(&mut bytes, self.proc_hierarchy_node.as_slice());
        proof {
            lemma_header_len(old(self)@.header);
            lemma_sealed_header_valid(old(self)@.header, old(self)@.proc_hierarchy_node);
        }
        guest_write(address, bytes)
    }
}

} // verus!
