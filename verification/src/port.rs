//! The port manager: one unit of work per connected port.
//!
//! At bring-up every port whose PORTSC shows a device connected gets a
//! task that drives the port reset: set Port-Reset, then watch successive
//! PORTSC reads until Port-Reset-Changed is set. The scheduler that runs
//! the tasks is an external collaborator; this module decides which ports
//! to spawn for and what each task writes and waits for.

use vstd::prelude::*;
use crate::config::Error;
use crate::registers::{
    spec_connect_status, spec_port_reset_changed, HCCapabilityRegisters,
};

verus! {

/// The indices in `status[i..]` whose PORTSC value shows a connected
/// device, in increasing order.
pub open spec fn spec_connected_ports(status: Seq<u32>, i: int) -> Seq<usize>
    decreases status.len() - i,
{
    if i < 0 || i >= status.len() {
        Seq::empty()
    } else if spec_connect_status(status[i]) {
        seq![i as usize] + spec_connected_ports(status, i + 1)
    } else {
        spec_connected_ports(status, i + 1)
    }
}

/// One port: its index and the latest PORTSC image.
#[derive(Debug, Clone, Copy, PartialEq, Eq, Structural)]
pub struct Port {
    index: usize,
    port_sc: u32,
}

impl View for Port {
    /// Index and PORTSC image.
    type V = (usize, u32);

    closed spec fn view(&self) -> (usize, u32) {
        (self.index, self.port_sc)
    }
}

impl Port {
    pub fn new(index: usize, port_sc: u32) -> (r: Self)
        ensures
            r@ == (index, port_sc),
    {
        Self { index, port_sc }
    }

    pub fn index(&self) -> (r: usize)
        ensures
            r == self@.0,
    {
        self.index
    }

    pub fn port_sc(&self) -> (r: u32)
        ensures
            r == self@.1,
    {
        self.port_sc
    }

    /// PORTSC Current-Connect-Status of the held image.
    pub fn connected(&self) -> (r: bool)
        ensures
            r == spec_connect_status(self@.1),
    {
        self.port_sc & 1u32 != 0
    }

    /// Starts the reset: the image gains the Port-Reset bit, which is the
    /// value the caller writes back to the port.
    pub fn start_resetting(&mut self)
        ensures
            final(self)@ == (old(self)@.0, old(self)@.1 | 0x10u32),
    {
        self.port_sc = self.port_sc | 0x10u32;
    }

    /// Bounded poll over successive PORTSC reads: `Ok(i)` exactly for the
    /// first read with Port-Reset-Changed set.
    pub fn wait_until_reset_completed(&self, observations: &Vec<u32>) -> (r: Result<usize, Error>)
        ensures
            r matches Ok(i) ==> i < observations@.len() && spec_port_reset_changed(
                observations@[i as int],
            ) && forall|j: int| 0 <= j < i ==> !spec_port_reset_changed(observations@[j]),
            r is Err ==> r->Err_0 == Error::HardwareNotResponding && forall|j: int|
                0 <= j < observations@.len() ==> !spec_port_reset_changed(observations@[j]),
    {
        let n = observations.len();
        for i in 0..n
            invariant
                n == observations@.len(),
                forall|j: int| 0 <= j < i ==> !spec_port_reset_changed(observations@[j]),
        {
            if observations[i] & 0x0020_0000u32 != 0 {
                return Ok(i);
            }
        }
        Err(Error::HardwareNotResponding)
    }

    /// Resets the port: sets Port-Reset in the image and polls the
    /// observed reads for Port-Reset-Changed.
    pub fn reset(&mut self, observations: &Vec<u32>) -> (r: Result<(), Error>)
        ensures
            final(self)@ == (old(self)@.0, old(self)@.1 | 0x10u32),
            r is Ok <==> exists|i: int|
                0 <= i < observations@.len() && spec_port_reset_changed(
                    #[trigger] observations@[i],
                ),
            r is Err ==> r->Err_0 == Error::HardwareNotResponding,
    {
        self.start_resetting();
        let w = self.wait_until_reset_completed(observations);
        match w {
            Ok(i) => {
                proof {
                    assert(spec_port_reset_changed(observations@[i as int]));
                }
                Ok(())
            },
            Err(e) => Err(e),
        }
    }

    /// The whole task body: a connected port is reset, a disconnected one
    /// is left alone.
    pub fn reset_if_connected(&mut self, observations: &Vec<u32>) -> (r: Result<(), Error>)
        ensures
            !spec_connect_status(old(self)@.1) ==> *final(self) == *old(self) && r is Ok,
            spec_connect_status(old(self)@.1) ==> ({
                &&& final(self)@ == (old(self)@.0, old(self)@.1 | 0x10u32)
                &&& (r is Ok <==> exists|i: int|
                    0 <= i < observations@.len() && spec_port_reset_changed(
                        #[trigger] observations@[i],
                    ))
                &&& (r is Err ==> r->Err_0 == Error::HardwareNotResponding)
            }),
    {
        if self.connected() {
            self.reset(observations)
        } else {
            Ok(())
        }
    }
}

/// All ports of one controller, each with its observed PORTSC value.
#[derive(Debug)]
pub struct Collection {
    capability_registers: HCCapabilityRegisters,
    port_status: Vec<u32>,
}

impl Collection {
    pub closed spec fn spec_status(&self) -> Seq<u32> {
        self.port_status@
    }

    pub closed spec fn spec_capability_registers(&self) -> HCCapabilityRegisters {
        self.capability_registers
    }

    /// One PORTSC value per port, as HCSPARAMS1 counts them.
    pub fn new(capability_registers: HCCapabilityRegisters, port_status: Vec<u32>) -> (r: Self)
        requires
            port_status@.len() == capability_registers.hcs_params_1 >> 24u32,
        ensures
            r.spec_status() == port_status@,
            r.spec_capability_registers() == capability_registers,
    {
        Self { capability_registers, port_status }
    }

    pub fn num_of_ports(&self) -> (r: usize)
        ensures
            r == self.spec_status().len(),
    {
        self.port_status.len()
    }

    /// The ports a task should be spawned for: exactly those whose PORTSC
    /// shows a connected device, in port order, each carrying its
    /// observed value.
    pub fn spawn_port_tasks(&self) -> (r: Vec<Port>)
        ensures
            ({
                let picked = spec_connected_ports(self.spec_status(), 0);
                &&& r@.len() == picked.len()
                &&& forall|k: int|
                    0 <= k < picked.len() ==> (#[trigger] r@[k])@ == (
                        picked[k],
                        self.spec_status()[picked[k] as int],
                    )
            }),
    {
        let ghost status = self.spec_status();
        let ghost picked = spec_connected_ports(status, 0);
        let n = self.num_of_ports();
        let mut result: Vec<Port> = Vec::new();
        #[verifier::loop_isolation(false)]
        for i in 0..n
            invariant
                spec_connected_ports(status, 0) == result@.map_values(|p: Port| p@.0)
                    + spec_connected_ports(status, i as int),
                forall|k: int|
                    0 <= k < result@.len() ==> (#[trigger] result@[k])@ == (
                        picked[k],
                        status[picked[k] as int],
                    ),
        {
            let value = self.port_status[i];
            let port = Port::new(i, value);
            if port.connected() {
                proof {
                    assert(spec_connected_ports(status, i as int) == seq![i as usize]
                        + spec_connected_ports(status, i + 1));
                    assert((result@ + seq![port]).map_values(|p: Port| p@.0) =~= result@.map_values(
                        |p: Port| p@.0,
                    ) + seq![i as usize]);
                    assert((result@.map_values(|p: Port| p@.0) + seq![i as usize])
                        + spec_connected_ports(status, i + 1) =~= result@.map_values(
                        |p: Port| p@.0,
                    ) + (seq![i as usize] + spec_connected_ports(status, i + 1)));
                }
                result.push(port);
            } else {
                proof {
                    assert(spec_connected_ports(status, i as int) == spec_connected_ports(
                        status,
                        i + 1,
                    ));
                }
            }
        }
        proof {
            assert(spec_connected_ports(status, n as int) =~= Seq::<usize>::empty());
            assert(picked =~= result@.map_values(|p: Port| p@.0));
        }
        result
    }
}

} // verus!
