use vstd::prelude::*;

verus! {

/// A memory-mapped peripheral: a range of bus addresses with registers.
///
/// An access the peripheral does not model is a fault of the simulated
/// firmware.  `read_ok` and `write_ok` name the accesses a handler serves;
/// callers check them with `can_read` and `can_write` first.
pub trait MmioHandler {
    /// Reads of `address` the handler serves.
    spec fn read_ok(&self, address: usize) -> bool;

    /// Writes of `value` to `address` the handler serves.
    spec fn write_ok(&self, address: usize, value: u64) -> bool;

    /// The addresses that belong to the handler.
    spec fn covers(&self, address: usize) -> bool;

    /// The value a served read of `address` returns.
    spec fn read_value(&self, address: usize) -> u32;

    /// Whether `next` is the handler after a served read of `address`.
    /// Reading most registers has no effect; reading a receive data
    /// register takes the byte it returns.
    spec fn read_done(&self, address: usize, next: &Self) -> bool;

    /// Whether `next` is the handler after a served write of `value` to
    /// `address`.
    spec fn written(&self, address: usize, value: u64, next: &Self) -> bool;

    fn read(&mut self, address: usize) -> (r: u32)
        requires
            old(self).read_ok(address),
        ensures
            r == old(self).read_value(address),
            old(self).read_done(address, &*final(self)),
    ;

    fn write(&mut self, address: usize, value: u64)
        requires
            old(self).write_ok(address, value),
        ensures
            old(self).written(address, value, &*final(self)),
    ;

    fn contains(&self, address: usize) -> (r: bool)
        ensures
            r == self.covers(address),
    ;

    fn can_read(&self, address: usize) -> (r: bool)
        ensures
            r == self.read_ok(address),
    ;

    fn can_write(&self, address: usize, value: u64) -> (r: bool)
        ensures
            r == self.write_ok(address, value),
    ;
}

} // verus!
