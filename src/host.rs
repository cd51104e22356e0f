use vstd::prelude::*;

verus! {

/// Severity of a kernel log line.
#[derive(Debug, Clone, Copy, PartialEq, Eq, Structural)]
pub enum Level {
    Error,
    Info,
    Debug,
}

/// One line of the kernel log.
pub struct LogLine {
    pub level: Level,
    pub text: String,
}

impl LogLine {
    pub open spec fn view(&self) -> (Level, Seq<char>) {
        (self.level, self.text@)
    }
}

/// The kernel services that the modules use: an append-only log and a
/// microsecond delay, recorded rather than performed.
pub struct Host {
    lines: Vec<LogLine>,
    slept_us: u64,
}

impl Host {
    /// The log, oldest line first.
    pub closed spec fn log(&self) -> Seq<(Level, Seq<char>)> {
        self.lines@.map_values(|l: LogLine| l@)
    }

    /// Total time spent sleeping, in microseconds.
    pub closed spec fn slept(&self) -> nat {
        self.slept_us as nat
    }

    /// A host with an empty log that has not slept.
    pub fn new() -> (r: Host)
        ensures
            r.log() == Seq::<(Level, Seq<char>)>::empty(),
            r.slept() == 0,
    {
        let r = Host { lines: Vec::new(), slept_us: 0 };
        assert(r.log() =~= Seq::<(Level, Seq<char>)>::empty());
        r
    }

    /// Appends a line at the given level.
    pub fn printk(&mut self, level: Level, text: String)
        ensures
            final(self).log() == old(self).log().push((level, text@)),
            final(self).slept() == old(self).slept(),
    {
        let ghost before = self.lines@;
        self.lines.push(LogLine { level, text });
        assert(self.lines@.map_values(|l: LogLine| l@) =~= before.map_values(
            |l: LogLine| l@,
        ).push((level, text@)));
    }

    /// Sleeps for `us` microseconds.
    pub fn sleep_us(&mut self, us: u64)
        requires
            old(self).slept() + us <= u64::MAX,
        ensures
            final(self).slept() == old(self).slept() + us,
            final(self).log() == old(self).log(),
    {
        self.slept_us = self.slept_us + us;
    }

    /// Number of lines in the log.
    pub fn line_count(&self) -> (r: usize)
        ensures
            r == self.log().len(),
    {
        self.lines.len()
    }

    /// The level of line `i`.
    pub fn line_level(&self, i: usize) -> (r: Level)
        requires
            i < self.log().len(),
        ensures
            r == self.log()[i as int].0,
    {
        self.lines[i].level
    }

    /// The text of line `i`.
    pub fn line_text(&self, i: usize) -> (r: String)
        requires
            i < self.log().len(),
        ensures
            r@ == self.log()[i as int].1,
    {
        self.lines[i].text.clone()
    }

    /// Microseconds slept so far.
    pub fn slept_micros(&self) -> (r: u64)
        ensures
            r == self.slept(),
    {
        self.slept_us
    }
}

} // verus!
