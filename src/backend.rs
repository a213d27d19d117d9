//! The startup option that names the graphics backend.
use vstd::prelude::*;

verus! {

/// A native graphics backend the device can be built against.
#[derive(Clone, Copy, Debug, PartialEq, Eq, Structural)]
pub enum BackendKind {
    Dx12,
    Metal,
    Vulkan,
    Gl,
}

/// The backend an option names, if it names one.
pub open spec fn backend_named(s: Seq<char>) -> Option<BackendKind> {
    if s == "dx12"@ {
        Some(BackendKind::Dx12)
    } else if s == "metal"@ {
        Some(BackendKind::Metal)
    } else if s == "vulkan"@ {
        Some(BackendKind::Vulkan)
    } else if s == "gl"@ {
        Some(BackendKind::Gl)
    } else {
        None
    }
}

/// The backend named by the first option that names one.
pub open spec fn first_backend(args: Seq<Seq<char>>) -> Option<BackendKind>
    decreases args.len(),
{
    if args.len() == 0 {
        None
    } else if backend_named(args[0]) is Some {
        backend_named(args[0])
    } else {
        first_backend(args.drop_first())
    }
}

/// The backend an option names, if it names one.
pub fn parse_backend(arg: &String) -> (r: Option<BackendKind>)
    ensures
        r == backend_named(arg@),
{
    let dx12 = "dx12".to_owned();
    let metal = "metal".to_owned();
    let vulkan = "vulkan".to_owned();
    let gl = "gl".to_owned();
    proof {
        reveal_strlit("dx12");
        reveal_strlit("metal");
        reveal_strlit("vulkan");
        reveal_strlit("gl");
    }
    if *arg == dx12 {
        Some(BackendKind::Dx12)
    } else if *arg == metal {
        Some(BackendKind::Metal)
    } else if *arg == vulkan {
        Some(BackendKind::Vulkan)
    } else if *arg == gl {
        Some(BackendKind::Gl)
    } else {
        None
    }
}

/// The backend named by the first option that names one; `None` when no
/// option names a backend.
pub fn select_backend(args: &Vec<String>) -> (r: Option<BackendKind>)
    ensures
        r == first_backend(args@.map_values(|s: String| s@)),
{
    let ghost all = args@.map_values(|s: String| s@);
    let mut i: usize = 0;
    proof {
        assert(all.skip(0) =~= all);
    }
    while i < args.len()
        invariant
            i <= args@.len(),
            all == args@.map_values(|s: String| s@),
            first_backend(all) == first_backend(all.skip(i as int)),
        decreases args@.len() - i,
    {
        let found = parse_backend(&args[i]);
        proof {
            let rest = all.skip(i as int);
            assert(rest[0] == args@[i as int]@);
            assert(rest.drop_first() =~= all.skip(i as int + 1));
        }
        if found.is_some() {
            return found;
        }
        i = i + 1;
    }
    proof {
        assert(all.skip(i as int).len() == 0);
    }
    None
}

} // verus!
