//! The command line of the graphics proxy that wraps the payload.
use vstd::prelude::*;

use crate::net::texts;

verus! {

/// The fixed arguments of the graphics proxy, then the driver path flag when a
/// driver path is given, then the payload command and its arguments.
pub open spec fn sommelier_arg_texts(
    gl_driver_path: Option<Seq<char>>,
    command: Seq<char>,
    command_args: Seq<Seq<char>>,
) -> Seq<Seq<char>> {
    let fixed = seq!["--virtgpu-channel"@, "-X"@, "--glamor"@];
    let driver = match gl_driver_path {
        Some(p) => seq!["--xwayland-gl-driver-path="@ + p],
        None => Seq::empty(),
    };
    fixed + driver + seq![command] + command_args
}

/// The arguments with which the graphics proxy runs `command` with
/// `command_args`, pointing its X server at `gl_driver_path` when one is given.
pub fn sommelier_args(
    gl_driver_path: Option<String>,
    command: &String,
    command_args: &Vec<String>,
) -> (r: Vec<String>)
    ensures
        texts(r@) == sommelier_arg_texts(
            match gl_driver_path {
                Some(p) => Some(p@),
                None => None,
            },
            command@,
            texts(command_args@),
        ),
{
    let mut r: Vec<String> = Vec::new();
    r.push(String::from_str("--virtgpu-channel"));
    r.push(String::from_str("-X"));
    r.push(String::from_str("--glamor"));
    match gl_driver_path {
        Some(p) => r.push(String::from_str("--xwayland-gl-driver-path=").concat(p.as_str())),
        None => {},
    }
    r.push(command.clone());
    let ghost head = texts(r@);
    let mut i: usize = 0;
    while i < command_args.len()
        invariant
            0 <= i <= command_args@.len(),
            texts(r@) == head + texts(command_args@).take(i as int),
        decreases command_args@.len() - i,
    {
        let a = command_args[i].clone();
        let ghost before = r@;
        r.push(a);
        assert(r@ == before.push(a));
        assert(texts(command_args@)[i as int] == a@);
        assert(texts(r@) =~= texts(before).push(a@));
        assert(texts(r@) =~= head + texts(command_args@).take(i + 1));
        i = i + 1;
    }
    assert(texts(command_args@).take(i as int) =~= texts(command_args@));
    r
}

} // verus!
