//! Port records as the audio-graph service lists them, and their split by
//! direction into the two path sequences that the selection controls offer.

use vstd::prelude::*;

verus! {

/// Direction of a port: `In` ports are sinks, `Out` ports are sources.
#[derive(Clone, Copy, Debug, PartialEq, Eq, Structural)]
pub enum PortDirection {
    In,
    Out,
}

/// One port of the audio graph.
#[derive(Clone, Debug)]
pub struct ListPort {
    pub path: String,
    pub direction: PortDirection,
    pub node_id: u32,
}

/// The paths of all ports, split by direction.
#[derive(Clone, Debug)]
pub struct PortCatalog {
    pub in_port_paths: Vec<String>,
    pub out_port_paths: Vec<String>,
}

/// The paths of the ports of direction `d`, in the order in which the ports come.
pub open spec fn paths_with(ports: Seq<ListPort>, d: PortDirection) -> Seq<String>
    decreases ports.len(),
{
    if ports.len() == 0 {
        Seq::empty()
    } else {
        let rest = paths_with(ports.drop_last(), d);
        if ports.last().direction == d {
            rest.push(ports.last().path)
        } else {
            rest
        }
    }
}

/// Splits `ports` into the paths of its input ports and those of its output
/// ports, each in the order of `ports`.
pub fn partition_ports(ports: &Vec<ListPort>) -> (r: PortCatalog)
    ensures
        r.in_port_paths@ == paths_with(ports@, PortDirection::In),
        r.out_port_paths@ == paths_with(ports@, PortDirection::Out),
{
    let mut ins: Vec<String> = Vec::new();
    let mut outs: Vec<String> = Vec::new();
    let mut i: usize = 0;
    while i < ports.len()
        invariant
            i <= ports.len(),
            ins@ == paths_with(ports@.take(i as int), PortDirection::In),
            outs@ == paths_with(ports@.take(i as int), PortDirection::Out),
        decreases ports.len() - i,
    {
        let port = &ports[i];
        proof {
            assert(ports@.take(i + 1).drop_last() =~= ports@.take(i as int));
        }
        match port.direction {
            PortDirection::In => ins.push(port.path.clone()),
            PortDirection::Out => outs.push(port.path.clone()),
        }
        i += 1;
    }
    proof {
        assert(ports@.take(ports.len() as int) =~= ports@);
    }
    PortCatalog { in_port_paths: ins, out_port_paths: outs }
}

/// What the ports before position `j` contribute to the paths of direction `d`
/// is a prefix of what all of them contribute.
proof fn lemma_paths_prefix(ports: Seq<ListPort>, j: int, d: PortDirection)
    requires
        0 <= j <= ports.len(),
    ensures
        paths_with(ports.take(j), d).len() <= paths_with(ports, d).len(),
        forall|m: int|
            0 <= m < paths_with(ports.take(j), d).len() ==> #[trigger] paths_with(ports, d)[m]
                == paths_with(ports.take(j), d)[m],
    decreases ports.len(),
{
    if j == ports.len() {
        assert(ports.take(j) =~= ports);
    } else {
        assert(ports.drop_last().take(j) =~= ports.take(j));
        lemma_paths_prefix(ports.drop_last(), j, d);
    }
}

/// Every port appears in exactly one of the two path sequences: the one of its
/// own direction, at the place given by the number of earlier ports of that
/// direction, so each sequence keeps the order of the ports; and the two
/// sequences together hold one path per port.
pub proof fn lemma_partition_complete(ports: Seq<ListPort>)
    ensures
        paths_with(ports, PortDirection::In).len() + paths_with(ports, PortDirection::Out).len()
            == ports.len(),
        forall|i: int|
            0 <= i < ports.len() ==> {
                let d = #[trigger] ports[i].direction;
                let k = paths_with(ports.take(i), d).len();
                &&& k < paths_with(ports, d).len()
                &&& paths_with(ports, d)[k as int] == ports[i].path
            },
    decreases ports.len(),
{
    if ports.len() > 0 {
        lemma_partition_complete(ports.drop_last());
    }
    assert forall|i: int| 0 <= i < ports.len() implies {
        let d = #[trigger] ports[i].direction;
        let k = paths_with(ports.take(i), d).len();
        &&& k < paths_with(ports, d).len()
        &&& paths_with(ports, d)[k as int] == ports[i].path
    } by {
        let d = ports[i].direction;
        assert(ports.take(i + 1).drop_last() =~= ports.take(i));
        assert(ports.take(i + 1).last() == ports[i]);
        lemma_paths_prefix(ports, i + 1, d);
    }
}

} // verus!
