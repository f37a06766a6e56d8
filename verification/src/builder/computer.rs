//! Building a computer from its parts.
use crate::text::clone_optional;
use vstd::prelude::*;

verus! {

/// A computer: three parts it always has, and a graphics card it may have.
#[derive(Debug)]
pub struct Computer {
    pub cpu: String,
    pub ram: String,
    pub storage: String,
    pub gpu: Option<String>,
}

/// Collects the parts of a computer. A part that is set again replaces the
/// one set before; the graphics card, once set, stays for later builds.
#[derive(Debug)]
pub struct CustomComputerBuilder {
    pub cpu: String,
    pub ram: String,
    pub storage: String,
    pub gpu: Option<String>,
}

impl CustomComputerBuilder {
    /// A builder with empty parts and no graphics card.
    pub fn new() -> (builder: Self)
        ensures
            builder.cpu@.len() == 0,
            builder.ram@.len() == 0,
            builder.storage@.len() == 0,
            builder.gpu is None,
    {
        CustomComputerBuilder { cpu: String::new(), ram: String::new(), storage: String::new(), gpu: None }
    }

    /// Sets the processor.
    pub fn set_cpu(&mut self, cpu: &str) -> (builder: &mut Self)
        ensures
            builder.cpu@ == cpu@,
            builder.ram == old(self).ram,
            builder.storage == old(self).storage,
            builder.gpu == old(self).gpu,
            *final(self) == *final(builder),
    {
        self.cpu = cpu.to_string();
        self
    }

    /// Sets the memory.
    pub fn set_ram(&mut self, ram: &str) -> (builder: &mut Self)
        ensures
            builder.cpu == old(self).cpu,
            builder.ram@ == ram@,
            builder.storage == old(self).storage,
            builder.gpu == old(self).gpu,
            *final(self) == *final(builder),
    {
        self.ram = ram.to_string();
        self
    }

    /// Sets the storage.
    pub fn set_storage(&mut self, storage: &str) -> (builder: &mut Self)
        ensures
            builder.cpu == old(self).cpu,
            builder.ram == old(self).ram,
            builder.storage@ == storage@,
            builder.gpu == old(self).gpu,
            *final(self) == *final(builder),
    {
        self.storage = storage.to_string();
        self
    }

    /// Sets the graphics card.
    pub fn set_gpu(&mut self, gpu: &str) -> (builder: &mut Self)
        ensures
            builder.cpu == old(self).cpu,
            builder.ram == old(self).ram,
            builder.storage == old(self).storage,
            builder.gpu is Some,
            builder.gpu->0@ == gpu@,
            *final(self) == *final(builder),
    {
        self.gpu = Some(gpu.to_string());
        self
    }

    /// The computer made of the parts set so far. The builder keeps them.
    pub fn build(&self) -> (computer: Computer)
        ensures
            computer.cpu == self.cpu,
            computer.ram == self.ram,
            computer.storage == self.storage,
            computer.gpu == self.gpu,
    {
        Computer {
            cpu: self.cpu.clone(),
            ram: self.ram.clone(),
            storage: self.storage.clone(),
            gpu: clone_optional(&self.gpu),
        }
    }
}

} // verus!
