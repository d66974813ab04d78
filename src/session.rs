//! The capture identifier handed to the application on its command line.
use vstd::prelude::*;
use vstd::string::*;

verus! {

/// The flag that carries a capture identifier: `--capture-id=<value>`.
pub open spec fn capture_id_flag() -> Seq<char> {
    "--capture-id="@
}

/// `s` starts with `p`.
pub open spec fn has_prefix(s: Seq<char>, p: Seq<char>) -> bool {
    p.len() <= s.len() && s.subrange(0, p.len() as int) == p
}

/// The identifier that one argument carries: the text after the flag, when
/// the argument starts with the flag and that text is not empty.
pub open spec fn id_in_arg(arg: Seq<char>) -> Option<Seq<char>> {
    let flag = capture_id_flag();
    if has_prefix(arg, flag) && arg.len() > flag.len() {
        Some(arg.subrange(flag.len() as int, arg.len() as int))
    } else {
        None
    }
}

/// The identifier carried by the first argument, in order, that carries one.
pub open spec fn capture_id_of(args: Seq<Seq<char>>) -> Option<Seq<char>>
    decreases args.len(),
{
    if args.len() == 0 {
        None
    } else {
        match id_in_arg(args[0]) {
            Some(id) => Some(id),
            None => capture_id_of(args.subrange(1, args.len() as int)),
        }
    }
}

/// Whether `s` starts with `p`.
fn starts_with(s: &str, p: &str) -> (r: bool)
    ensures
        r == has_prefix(s@, p@),
{
    let n = s.unicode_len();
    let m = p.unicode_len();
    if m > n {
        return false;
    }
    let mut i: usize = 0;
    while i < m
        invariant
            m == p@.len(),
            n == s@.len(),
            m <= n,
            i <= m,
            forall|k: int| 0 <= k < i ==> s@[k] == p@[k],
        decreases m - i,
    {
        if s.get_char(i) != p.get_char(i) {
            assert(s@.subrange(0, m as int)[i as int] != p@[i as int]);
            return false;
        }
        i = i + 1;
    }
    assert(s@.subrange(0, m as int) =~= p@);
    true
}

/// The capture identifier among the launch arguments `args`: the value of the
/// first `--capture-id=<value>` argument whose value is not empty. The value
/// is all the text after the flag.
pub fn extract_capture_id(args: &Vec<String>) -> (r: Option<String>)
    ensures
        r matches Some(id) ==> capture_id_of(args@.map_values(|a: String| a@)) == Some(id@),
        r is None ==> capture_id_of(args@.map_values(|a: String| a@)) is None,
{
    let ghost views = args@.map_values(|a: String| a@);
    let flag = "--capture-id=";
    let mut i: usize = 0;
    assert(views.subrange(0, views.len() as int) =~= views);
    while i < args.len()
        invariant
            i <= args@.len(),
            views == args@.map_values(|a: String| a@),
            flag@ == capture_id_flag(),
            capture_id_of(views) == capture_id_of(views.subrange(i as int, views.len() as int)),
        decreases args@.len() - i,
    {
        let arg = args[i].as_str();
        let ghost tail = views.subrange(i as int, views.len() as int);
        assert(tail[0] == arg@);
        assert(tail.subrange(1, tail.len() as int) =~= views.subrange(i + 1, views.len() as int));
        if starts_with(arg, flag) {
            let n = arg.unicode_len();
            let m = flag.unicode_len();
            if n > m {
                return Some(arg.substring_char(m, n).to_string());
            }
        }
        i = i + 1;
    }
    assert(views.subrange(i as int, views.len() as int).len() == 0);
    None
}

/// The capture identifier to announce on a window event: the launch
/// arguments are read again each time the window gains focus, which is how a
/// second launch of the running application delivers a new identifier.
pub fn capture_id_on_window_event(gained_focus: bool, args: &Vec<String>) -> (r: Option<String>)
    ensures
        !gained_focus ==> r is None,
        gained_focus && r is None ==> capture_id_of(args@.map_values(|a: String| a@)) is None,
        r matches Some(id) ==> gained_focus && capture_id_of(args@.map_values(|a: String| a@))
            == Some(id@),
{
    if gained_focus {
        extract_capture_id(args)
    } else {
        None
    }
}

} // verus!
