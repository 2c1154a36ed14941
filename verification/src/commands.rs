//! The textual commands sent to the compositor: relocation of an output,
//! creation of a virtual output, and unplugging during teardown.
use vstd::prelude::*;
use vstd::string::StringExecFns;

verus! {

/// The decimal digit character for `d` (`d < 10`).
pub open spec fn dec_digit(d: nat) -> char {
    if d == 0 {
        '0'
    } else if d == 1 {
        '1'
    } else if d == 2 {
        '2'
    } else if d == 3 {
        '3'
    } else if d == 4 {
        '4'
    } else if d == 5 {
        '5'
    } else if d == 6 {
        '6'
    } else if d == 7 {
        '7'
    } else if d == 8 {
        '8'
    } else {
        '9'
    }
}

/// The decimal rendering of `n`, most significant digit first, no sign and
/// no leading zeros (a single `'0'` for zero).
pub open spec fn dec_str(n: nat) -> Seq<char>
    decreases n,
{
    if n < 10 {
        seq![dec_digit(n)]
    } else {
        dec_str(n / 10) + seq![dec_digit(n % 10)]
    }
}

/// The decimal rendering of a possibly negative offset.
pub open spec fn int_str(n: int) -> Seq<char> {
    if n < 0 {
        seq!['-'] + dec_str((-n) as nat)
    } else {
        dec_str(n as nat)
    }
}

fn digit_str(d: u64) -> (r: &'static str)
    requires
        d < 10,
    ensures
        r@ == seq![dec_digit(d as nat)],
{
    proof {
        reveal_strlit("0");
        reveal_strlit("1");
        reveal_strlit("2");
        reveal_strlit("3");
        reveal_strlit("4");
        reveal_strlit("5");
        reveal_strlit("6");
        reveal_strlit("7");
        reveal_strlit("8");
        reveal_strlit("9");
    }
    let r: &'static str = if d == 0 {
        "0"
    } else if d == 1 {
        "1"
    } else if d == 2 {
        "2"
    } else if d == 3 {
        "3"
    } else if d == 4 {
        "4"
    } else if d == 5 {
        "5"
    } else if d == 6 {
        "6"
    } else if d == 7 {
        "7"
    } else if d == 8 {
        "8"
    } else {
        "9"
    };
    proof {
        assert(r@ =~= seq![dec_digit(d as nat)]);
    }
    r
}

/// Renders an unsigned quantity in decimal.
pub fn u64_to_string(n: u64) -> (s: String)
    ensures
        s@ == dec_str(n as nat),
    decreases n,
{
    if n < 10 {
        String::from_str(digit_str(n))
    } else {
        let mut s = u64_to_string(n / 10);
        s.append(digit_str(n % 10));
        s
    }
}

/// Renders a signed offset in decimal, with a leading `'-'` when negative.
pub fn i64_to_string(n: i64) -> (s: String)
    requires
        n > i64::MIN,
    ensures
        s@ == int_str(n as int),
{
    if n < 0 {
        let mut s = String::from_str("-");
        proof {
            reveal_strlit("-");
            assert(s@ =~= seq!['-']);
        }
        let m: u64 = (-n) as u64;
        let digits = u64_to_string(m);
        s.append(digits.as_str());
        proof {
            assert(s@ =~= seq!['-'] + dec_str((-(n as int)) as nat));
        }
        s
    } else {
        u64_to_string(n as u64)
    }
}

/// The command that moves output `name` to the given position at the given
/// mode, over a solid background.
pub open spec fn relocate_command_model(
    name: Seq<char>,
    width: nat,
    height: nat,
    x: int,
    y: int,
    bg: Seq<char>,
) -> Seq<char> {
    "output "@ + name + " mode "@ + dec_str(width) + "x"@ + dec_str(height) + " pos "@ + int_str(x)
        + " "@ + int_str(y) + " bg "@ + bg + " solid_color"@
}

/// The command that creates a virtual output called `name`.
pub open spec fn create_command_model(name: Seq<char>) -> Seq<char> {
    "create_output "@ + name
}

/// The command that unplugs output `name`.
pub open spec fn unplug_command_model(name: Seq<char>) -> Seq<char> {
    "output "@ + name + " unplug"@
}

/// Builds the relocation command for an output.
pub fn relocate_command(name: &str, width: u64, height: u64, x: i64, y: i64, bg: &str) -> (r:
    String)
    requires
        x > i64::MIN,
        y > i64::MIN,
    ensures
        r@ == relocate_command_model(name@, width as nat, height as nat, x as int, y as int, bg@),
{
    let mut s = String::from_str("output ");
    s.append(name);
    s.append(" mode ");
    let ws = u64_to_string(width);
    s.append(ws.as_str());
    s.append("x");
    let hs = u64_to_string(height);
    s.append(hs.as_str());
    s.append(" pos ");
    let xs = i64_to_string(x);
    s.append(xs.as_str());
    s.append(" ");
    let ys = i64_to_string(y);
    s.append(ys.as_str());
    s.append(" bg ");
    s.append(bg);
    s.append(" solid_color");
    proof {
        assert(s@ =~= relocate_command_model(
            name@,
            width as nat,
            height as nat,
            x as int,
            y as int,
            bg@,
        ));
    }
    s
}

/// Builds the creation command for a virtual output.
pub fn create_command(name: &str) -> (r: String)
    ensures
        r@ == create_command_model(name@),
{
    let mut s = String::from_str("create_output ");
    s.append(name);
    s
}

/// Builds the unplug command for an output.
pub fn unplug_command(name: &str) -> (r: String)
    ensures
        r@ == unplug_command_model(name@),
{
    let mut s = String::from_str("output ");
    s.append(name);
    s.append(" unplug");
    proof {
        assert(s@ =~= unplug_command_model(name@));
    }
    s
}

/// The conventional name of the indexed leftover virtual output `i`.
pub open spec fn headless_name_model(i: nat) -> Seq<char> {
    "HEADLESS-"@ + dec_str(i)
}

/// The creation command for the virtual output, issued only when no prior
/// snapshot already reported that output as present.
pub fn ensure_virtual_output(name: &str, already_present: bool) -> (r: Option<String>)
    ensures
        already_present ==> r is None,
        !already_present ==> r is Some && r->0@ == create_command_model(name@),
{
    if already_present {
        None
    } else {
        Some(create_command(name))
    }
}

/// Builds the cleanup sweep: unplug the named virtual output, then unplug
/// every indexed leftover virtual output below `sweep_bound`.
pub fn teardown_commands(virtual_name: &str, sweep_bound: u64) -> (cmds: Vec<String>)
    requires
        sweep_bound < u64::MAX,
    ensures
        cmds@.len() == sweep_bound + 1,
        cmds@[0]@ == unplug_command_model(virtual_name@),
        forall|i: int|
            1 <= i <= sweep_bound ==> #[trigger] cmds@[i]@ == unplug_command_model(
                headless_name_model((i - 1) as nat),
            ),
{
    let mut cmds: Vec<String> = Vec::new();
    cmds.push(unplug_command(virtual_name));
    let mut i: u64 = 0;
    while i < sweep_bound
        invariant
            0 <= i <= sweep_bound,
            cmds@.len() == i + 1,
            cmds@[0]@ == unplug_command_model(virtual_name@),
            forall|k: int|
                1 <= k <= i ==> #[trigger] cmds@[k]@ == unplug_command_model(
                    headless_name_model((k - 1) as nat),
                ),
        decreases sweep_bound - i,
    {
        let mut name = String::from_str("HEADLESS-");
        let digits = u64_to_string(i);
        name.append(digits.as_str());
        proof {
            assert(name@ =~= headless_name_model(i as nat));
        }
        cmds.push(unplug_command(name.as_str()));
        i = i + 1;
    }
    cmds
}

} // verus!
