use vstd::prelude::*;
use vstd::string::StringExecFns;
use crate::error::Error;
use crate::fmt::{decimal, digit_char, format_int, int_text};
use crate::host::{Host, Level};

verus! {

/// Microseconds that `do_work` sleeps for the input `n`: ten for each of `n`
/// rounds, none where `n` is not positive.
pub open spec fn work_sleep(n: i32) -> nat {
    if n > 0 {
        (10 * n) as nat
    } else {
        0
    }
}

/// The debug line that `do_work` logs for an input below ten.
pub open spec fn slept_long_line() -> Seq<char> {
    "We slept a long time!\n"@
}

/// The style exercise. It keeps no state.
pub struct CodingStyle;

/// Sleeps ten microseconds `*my_int` times and returns the square of
/// `*my_int`; for an input below ten it also logs a debug line.
pub fn do_work(my_int: &i32, _retval: i32, host: &mut Host) -> (r: i32)
    requires
        i32::MIN <= *my_int as int * *my_int as int <= i32::MAX,
        old(host).slept() + work_sleep(*my_int) <= u64::MAX,
    ensures
        r == *my_int as int * *my_int as int,
        final(host).slept() == old(host).slept() + work_sleep(*my_int),
        final(host).log() == if *my_int < 10 {
            old(host).log().push((Level::Debug, slept_long_line()))
        } else {
            old(host).log()
        },
{
    let y = *my_int;
    let mut i: i32 = 0;
    while i < *my_int
        invariant
            0 <= i,
            *my_int > 0 ==> i <= *my_int,
            *my_int <= 0 ==> i == 0,
            host.slept() == old(host).slept() + 10 * i,
            host.log() == old(host).log(),
            old(host).slept() + work_sleep(*my_int) <= u64::MAX,
        decreases *my_int - i,
    {
        host.sleep_us(10);
        i = i + 1;
    }
    let x = *my_int;
    if y < 10 {
        host.printk(Level::Debug, String::from_str("We slept a long time!\n"));
    }
    x * y
}

impl CodingStyle {
    /// Runs `do_work` on ten, which sleeps a hundred microseconds, and logs
    /// the result, `100`, at error level.
    pub fn init(host: &mut Host) -> (r: Result<CodingStyle, Error>)
        requires
            old(host).slept() + 100 <= u64::MAX,
        ensures
            r is Ok,
            final(host).slept() == old(host).slept() + 100,
            final(host).log() == old(host).log().push((Level::Error, seq!['1', '0', '0', '\n'])),
    {
        let x: i32 = 10;
        let x = do_work(&x, x, host);
        let mut line = format_int(x);
        proof {
            reveal_strlit("\n");
            assert(decimal(1) == seq![digit_char(1)]);
            assert(decimal(10) == decimal(1) + seq![digit_char(0)]);
            assert(decimal(100) == decimal(10) + seq![digit_char(0)]);
            assert(int_text(100) =~= seq!['1', '0', '0']);
        }
        line.append("\n");
        assert(line@ =~= seq!['1', '0', '0', '\n']);
        host.printk(Level::Error, line);
        Ok(CodingStyle)
    }

    /// Unloading does nothing: no line is logged.
    pub fn drop(&mut self, host: &mut Host)
        ensures
            final(host).log() == old(host).log(),
            final(host).slept() == old(host).slept(),
    {
    }
}

/// Loading and then unloading the style exercise logs exactly one line,
/// `100` at error level, after what the log held before.
pub proof fn lemma_coding_style_cycle(h0: Host, h1: Host, h2: Host)
    requires
        h1.log() == h0.log().push((Level::Error, seq!['1', '0', '0', '\n'])),
        h2.log() == h1.log(),
    ensures
        h2.log() == h0.log() + seq![(Level::Error, seq!['1', '0', '0', '\n'])],
{
    assert(h2.log() =~= h0.log() + seq![(Level::Error, seq!['1', '0', '0', '\n'])]);
}

} // verus!
