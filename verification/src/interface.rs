//! Network interfaces as the core consumes them: an externally supplied
//! list of name/description pairs. The core never discovers devices
//! itself.

use vstd::prelude::*;
use vstd::string::*;

verus! {

/// One network interface: its name and an optional description.
#[derive(Debug, Clone)]
pub struct NetworkInterface {
    pub name: String,
    pub description: Option<String>,
}

/// One line of the interface listing.
pub open spec fn spec_interface_line(name: Seq<char>, description: Option<Seq<char>>) -> Seq<
    char,
> {
    match description {
        Some(d) => name + " -> "@ + d + seq!['\n'],
        None => name + seq!['\n'],
    }
}

/// The interface listing from index `i` on.
pub open spec fn spec_interface_lines(interfaces: Seq<NetworkInterface>, i: int) -> Seq<char>
    decreases interfaces.len() - i,
{
    if i < 0 || i >= interfaces.len() {
        Seq::empty()
    } else {
        spec_interface_line(
            interfaces[i].name@,
            match interfaces[i].description {
                Some(d) => Some(d@),
                None => None,
            },
        ) + spec_interface_lines(interfaces, i + 1)
    }
}

/// The full interface listing: a heading, then one line per interface.
pub open spec fn spec_interface_list(interfaces: Seq<NetworkInterface>) -> Seq<char> {
    "Available interfaces:\n"@ + spec_interface_lines(interfaces, 0)
}

/// Renders the interface listing for display.
pub fn format_interface_list(interfaces: &[NetworkInterface]) -> (s: String)
    ensures
        s@ == spec_interface_list(interfaces@),
{
    proof {
        reveal_strlit("\n");
    }
    let mut s = String::from_str("Available interfaces:\n");
    let n = interfaces.len();
    let mut i: usize = 0;
    while i < n
        invariant
            i <= n,
            n == interfaces@.len(),
            s@ + spec_interface_lines(interfaces@, i as int) == "Available interfaces:\n"@
                + spec_interface_lines(interfaces@, 0),
        decreases n - i,
    {
        proof {
            reveal_strlit("\n");
        }
        let ghost pre = s@;
        let iface = &interfaces[i];
        s.append(iface.name.as_str());
        match &iface.description {
            Some(d) => {
                s.append(" -> ");
                s.append(d.as_str());
                s.append("\n");
            },
            None => {
                s.append("\n");
            },
        }
        proof {
            let line = spec_interface_line(
                interfaces@[i as int].name@,
                match interfaces@[i as int].description {
                    Some(d) => Some(d@),
                    None => None,
                },
            );
            assert(s@ =~= pre + line);
            assert(pre + (line + spec_interface_lines(interfaces@, i as int + 1)) =~= (pre + line)
                + spec_interface_lines(interfaces@, i as int + 1));
        }
        i = i + 1;
    }
    proof {
        assert(s@ + spec_interface_lines(interfaces@, n as int) =~= s@);
    }
    s
}

/// Whether an interface with the given name is in the supplied list.
pub fn validate_interface(interfaces: &[NetworkInterface], interface_name: &str) -> (r: bool)
    ensures
        r == exists|i: int|
            0 <= i < interfaces@.len() && (#[trigger] interfaces@[i]).name@ == interface_name@,
{
    let target = String::from_str(interface_name);
    let n = interfaces.len();
    let mut i: usize = 0;
    while i < n
        invariant
            i <= n,
            n == interfaces@.len(),
            target@ == interface_name@,
            forall|k: int| 0 <= k < i ==> (#[trigger] interfaces@[k]).name@ != interface_name@,
        decreases n - i,
    {
        if interfaces[i].name == target {
            return true;
        }
        i = i + 1;
    }
    false
}

} // verus!
