use vstd::prelude::*;
use vstd::string::StringExecFns;
use crate::error::Error;
use crate::host::{Host, Level};

verus! {

/// The line logged on load.
pub open spec fn hello_line() -> Seq<char> {
    "Hello World!\n"@
}

/// The line logged on unload.
pub open spec fn bye_line() -> Seq<char> {
    "cya!\n"@
}

/// The greeter module. It keeps no state.
pub struct Task01;

impl Task01 {
    /// Loading logs `Hello World!` at info level and always succeeds.
    pub fn init(host: &mut Host) -> (r: Result<Task01, Error>)
        ensures
            r is Ok,
            final(host).log() == old(host).log().push((Level::Info, hello_line())),
            final(host).slept() == old(host).slept(),
    {
        host.printk(Level::Info, String::from_str("Hello World!\n"));
        Ok(Task01)
    }

    /// Unloading logs `cya!` at info level.
    pub fn drop(&mut self, host: &mut Host)
        ensures
            final(host).log() == old(host).log().push((Level::Info, bye_line())),
            final(host).slept() == old(host).slept(),
    {
        host.printk(Level::Info, String::from_str("cya!\n"));
    }
}

/// Loading and then unloading the greeter logs exactly `Hello World!` and
/// then `cya!`, both at info level, after what the log held before.
pub proof fn lemma_greeter_cycle(h0: Host, h1: Host, h2: Host)
    requires
        h1.log() == h0.log().push((Level::Info, hello_line())),
        h2.log() == h1.log().push((Level::Info, bye_line())),
    ensures
        h2.log() == h0.log() + seq![(Level::Info, hello_line()), (Level::Info, bye_line())],
{
    assert(h2.log() =~= h0.log() + seq![(Level::Info, hello_line()), (Level::Info, bye_line())]);
}

} // verus!
