//! The requests of a hart to its execution environment, and their record.
use vstd::prelude::*;
use crate::public::{ExecutionEnvironmentInterface, Traps};

verus! {

/// The width of a memory access.
#[derive(Clone, Copy, Debug, PartialEq, Eq, Structural)]
pub enum Width {
    /// 8 bits.
    Byte,
    /// 16 bits.
    Half,
    /// 32 bits.
    Word,
    /// 64 bits.
    Double,
}

/// One request of a hart to its environment, with the answer where there is
/// one. Data narrower than 64 bits is zero-extended.
#[derive(Clone, Copy, Debug, PartialEq, Eq, Structural)]
pub enum Event {
    /// The opcode at `addr` was fetched, and the environment gave `opcode`.
    Fetch { addr: u64, opcode: u32 },
    /// Memory at `addr` was read, and the environment gave `data`.
    Load { width: Width, addr: u64, data: u64 },
    /// `data` was written to memory at `addr`.
    Store { width: Width, addr: u64, data: u64 },
    /// A trap was reported.
    Trap { kind: Traps },
}

/// An execution environment together with the record of every request that
/// was made of it. Each method makes one request of the environment and adds
/// it to the record; nothing else changes the record.
pub struct Traced<EEI> {
    env: EEI,
    history: Ghost<Seq<Event>>,
}

impl<EEI: ExecutionEnvironmentInterface> Traced<EEI> {
    /// The requests made so far, the first one first.
    pub closed spec fn history(&self) -> Seq<Event> {
        self.history@
    }

    /// The environment itself.
    pub closed spec fn spec_env(&self) -> EEI {
        self.env
    }

    /// Wraps an environment of which nothing has been asked.
    pub fn new(env: EEI) -> (traced: Self)
        ensures
            traced.history() == Seq::<Event>::empty(),
            traced.spec_env() == env,
    {
        Traced { env, history: Ghost(Seq::empty()) }
    }

    /// The environment itself.
    pub fn env(&self) -> (env: &EEI)
        ensures
            *env == self.spec_env(),
    {
        &self.env
    }

    /// Gives the environment back.
    pub fn into_env(self) -> (env: EEI)
        ensures
            env == self.spec_env(),
    {
        self.env
    }

    /// Reads the byte at `addr`.
    pub fn get_8(&mut self, addr: u64) -> (data: u8)
        ensures
            final(self).history() == old(self).history().push(
                Event::Load { width: Width::Byte, addr, data: data as u64 },
            ),
    {
        let data = self.env.get_8(addr);
        proof {
            self.history@ = self.history@.push(
                Event::Load { width: Width::Byte, addr, data: data as u64 },
            );
        }
        data
    }

    /// Reads the halfword at `addr`.
    pub fn get_16(&mut self, addr: u64) -> (data: u16)
        ensures
            final(self).history() == old(self).history().push(
                Event::Load { width: Width::Half, addr, data: data as u64 },
            ),
    {
        let data = self.env.get_16(addr);
        proof {
            self.history@ = self.history@.push(
                Event::Load { width: Width::Half, addr, data: data as u64 },
            );
        }
        data
    }

    /// Reads the word at `addr`.
    pub fn get_32(&mut self, addr: u64) -> (data: u32)
        ensures
            final(self).history() == old(self).history().push(
                Event::Load { width: Width::Word, addr, data: data as u64 },
            ),
    {
        let data = self.env.get_32(addr);
        proof {
            self.history@ = self.history@.push(
                Event::Load { width: Width::Word, addr, data: data as u64 },
            );
        }
        data
    }

    /// Reads the doubleword at `addr`.
    pub fn get_64(&mut self, addr: u64) -> (data: u64)
        ensures
            final(self).history() == old(self).history().push(
                Event::Load { width: Width::Double, addr, data },
            ),
    {
        let data = self.env.get_64(addr);
        proof {
            self.history@ = self.history@.push(Event::Load { width: Width::Double, addr, data });
        }
        data
    }

    /// Writes the byte `data` at `addr`.
    pub fn set_8(&mut self, addr: u64, data: u8)
        ensures
            final(self).history() == old(self).history().push(
                Event::Store { width: Width::Byte, addr, data: data as u64 },
            ),
    {
        self.env.set_8(addr, data);
        proof {
            self.history@ = self.history@.push(
                Event::Store { width: Width::Byte, addr, data: data as u64 },
            );
        }
    }

    /// Writes the halfword `data` at `addr`.
    pub fn set_16(&mut self, addr: u64, data: u16)
        ensures
            final(self).history() == old(self).history().push(
                Event::Store { width: Width::Half, addr, data: data as u64 },
            ),
    {
        self.env.set_16(addr, data);
        proof {
            self.history@ = self.history@.push(
                Event::Store { width: Width::Half, addr, data: data as u64 },
            );
        }
    }

    /// Writes the word `data` at `addr`.
    pub fn set_32(&mut self, addr: u64, data: u32)
        ensures
            final(self).history() == old(self).history().push(
                Event::Store { width: Width::Word, addr, data: data as u64 },
            ),
    {
        self.env.set_32(addr, data);
        proof {
            self.history@ = self.history@.push(
                Event::Store { width: Width::Word, addr, data: data as u64 },
            );
        }
    }

    /// Writes the doubleword `data` at `addr`.
    pub fn set_64(&mut self, addr: u64, data: u64)
        ensures
            final(self).history() == old(self).history().push(
                Event::Store { width: Width::Double, addr, data },
            ),
    {
        self.env.set_64(addr, data);
        proof {
            self.history@ = self.history@.push(Event::Store { width: Width::Double, addr, data });
        }
    }

    /// Fetches the opcode at `addr`.
    pub fn get_opcode_32(&mut self, addr: u64) -> (opcode: u32)
        ensures
            final(self).history() == old(self).history().push(Event::Fetch { addr, opcode }),
    {
        let opcode = self.env.get_opcode_32(addr);
        proof {
            self.history@ = self.history@.push(Event::Fetch { addr, opcode });
        }
        opcode
    }

    /// Reports a trap.
    pub fn trap(&mut self, trap: Traps)
        ensures
            final(self).history() == old(self).history().push(Event::Trap { kind: trap }),
    {
        self.env.trap(trap);
        proof {
            self.history@ = self.history@.push(Event::Trap { kind: trap });
        }
    }
}

} // verus!
