//! Where the player's control socket lives, found the way the player
//! itself finds it.
use vstd::prelude::*;

verus! {

/// The socket path from, in order of precedence: an explicit override, the
/// runtime directory, the configuration home, the home directory. `None`
/// when none of them is known.
pub open spec fn socket_path_spec(
    override_path: Option<Seq<char>>,
    runtime_dir: Option<Seq<char>>,
    config_home: Option<Seq<char>>,
    home: Option<Seq<char>>,
) -> Option<Seq<char>> {
    if override_path is Some {
        override_path
    } else if runtime_dir is Some {
        Some(runtime_dir->0 + "/cmus-socket"@)
    } else if config_home is Some {
        Some(config_home->0 + "/cmus"@ + "/socket"@)
    } else if home is Some {
        Some(home->0 + "/.config"@ + "/cmus"@ + "/socket"@)
    } else {
        None
    }
}

pub open spec fn opt_chars(o: Option<String>) -> Option<Seq<char>> {
    match o {
        Some(s) => Some(s@),
        None => None,
    }
}

/// Resolves the socket path from the values of `CMUS_SOCKET`,
/// `XDG_RUNTIME_DIR`, `XDG_CONFIG_HOME` and `HOME`, each `None` when unset.
pub fn socket_path(
    override_path: Option<String>,
    runtime_dir: Option<String>,
    config_home: Option<String>,
    home: Option<String>,
) -> (r: Option<String>)
    ensures
        opt_chars(r) == socket_path_spec(
            opt_chars(override_path),
            opt_chars(runtime_dir),
            opt_chars(config_home),
            opt_chars(home),
        ),
{
    if let Some(p) = override_path {
        return Some(p);
    }
    if let Some(d) = runtime_dir {
        return Some(d.concat("/cmus-socket"));
    }
    let config_dir = match config_home {
        Some(c) => c,
        None => match home {
            Some(h) => h.concat("/.config"),
            None => return None,
        },
    };
    Some(config_dir.concat("/cmus").concat("/socket"))
}

} // verus!
