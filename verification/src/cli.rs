//! What the command line asks for, and whether it makes sense.
use vstd::prelude::*;

verus! {

/// The command-line options.
#[derive(Debug)]
pub struct Cli {
    /// Connect to a server with X-Plane.
    pub xplane: bool,
    /// Connect to a server with MSFS.
    pub msfs: bool,
    /// Address of the server to connect to.
    pub address: Option<String>,
    /// Connect as a master.
    pub master: bool,
    /// Run the server.
    pub serve: bool,
    /// Password of the server.
    pub password: Option<u64>,
    /// The port the server uses.
    pub serve_port: u16,
}

/// A simulator that can take part in a session.
#[derive(Debug, Clone, Copy, PartialEq, Eq, Structural)]
pub enum SimType {
    XPlane,
    Msfs,
}

impl SimType {
    /// The simulator the options select; X-Plane where both are selected.
    pub fn from_args(args: &Cli) -> (sim: Option<SimType>)
        ensures
            args.xplane ==> sim == Some(SimType::XPlane),
            !args.xplane && args.msfs ==> sim == Some(SimType::Msfs),
            !args.xplane && !args.msfs ==> sim is None,
    {
        if args.xplane {
            Some(SimType::XPlane)
        } else if args.msfs {
            Some(SimType::Msfs)
        } else {
            None
        }
    }
}

/// What the program is to do.
#[derive(Debug)]
pub enum Launch {
    /// Run a server on `port` with a fresh password and join it.
    ServeAndJoin { sim: SimType, port: u16, master: bool },
    /// Run a server on `port` with a fresh password.
    Serve { port: u16 },
    /// Join the server at `address`.
    Join { sim: SimType, address: String, password: u64, master: bool },
}

/// Why the options make no sense.
#[derive(Debug, Clone, Copy, PartialEq, Eq, Structural)]
pub enum UsageError {
    NoOptionSelected,
    MoreThanOneSim,
    PasswordWithServe,
    PasswordMissing,
    AddressMissing,
}

/// The text shown for a usage error.
pub open spec fn usage_text(e: UsageError) -> Seq<char> {
    match e {
        UsageError::NoOptionSelected => "No option selected."@,
        UsageError::MoreThanOneSim => "More than one sim selected."@,
        UsageError::PasswordWithServe => "The --password argument cannot be used with --serve."@,
        UsageError::PasswordMissing => "Password must be specified."@,
        UsageError::AddressMissing => "Server address must be specified."@,
    }
}

impl UsageError {
    /// The text shown for this error.
    pub fn message(&self) -> (text: String)
        ensures
            text@ == usage_text(*self),
            *self == UsageError::NoOptionSelected ==> text@ == "No option selected."@,
            *self == UsageError::MoreThanOneSim ==> text@ == "More than one sim selected."@,
            *self == UsageError::PasswordWithServe ==> text@
                == "The --password argument cannot be used with --serve."@,
            *self == UsageError::PasswordMissing ==> text@ == "Password must be specified."@,
            *self == UsageError::AddressMissing ==> text@ == "Server address must be specified."@,
    {
        match self {
            UsageError::NoOptionSelected => "No option selected.".to_owned(),
            UsageError::MoreThanOneSim => "More than one sim selected.".to_owned(),
            UsageError::PasswordWithServe => {
                "The --password argument cannot be used with --serve.".to_owned()
            },
            UsageError::PasswordMissing => "Password must be specified.".to_owned(),
            UsageError::AddressMissing => "Server address must be specified.".to_owned(),
        }
    }
}

/// What the options ask for: to serve, to join with a simulator, or both;
/// refused, in this order, where nothing is asked for, where both simulators
/// are selected, where a password is given to a server, and where joining
/// alone lacks a password or an address.
pub open spec fn launch_outcome(args: Cli) -> Result<Launch, UsageError> {
    let joins = args.xplane || args.msfs;
    let sim = if args.xplane {
        SimType::XPlane
    } else {
        SimType::Msfs
    };
    if !args.serve && !joins {
        Err(UsageError::NoOptionSelected)
    } else if args.xplane && args.msfs {
        Err(UsageError::MoreThanOneSim)
    } else if args.serve {
        if args.password is Some {
            Err(UsageError::PasswordWithServe)
        } else if joins {
            Ok(Launch::ServeAndJoin { sim, port: args.serve_port, master: args.master })
        } else {
            Ok(Launch::Serve { port: args.serve_port })
        }
    } else if args.password is None {
        Err(UsageError::PasswordMissing)
    } else if args.address is None {
        Err(UsageError::AddressMissing)
    } else {
        Ok(
            Launch::Join {
                sim,
                address: args.address->Some_0,
                password: args.password->Some_0,
                master: args.master,
            },
        )
    }
}

/// What the options ask for, case by case: nothing selected, or both
/// simulators, is refused; a server takes no password; a server with one
/// simulator also joins it, with that simulator, port and role; a lone join
/// needs a password and an address, and carries them, the simulator and the
/// role through unchanged.
pub proof fn lemma_launch_follows_rules(args: Cli)
    ensures
        !args.serve && !args.xplane && !args.msfs ==> launch_outcome(args) == Err::<Launch, UsageError>(
                UsageError::NoOptionSelected,
            ),
        args.xplane && args.msfs ==> launch_outcome(args) == Err::<Launch, UsageError>(UsageError::MoreThanOneSim),
        args.serve && !(args.xplane && args.msfs) && args.password is Some ==> launch_outcome(args) == Err::<
                Launch,
                UsageError,
            >(UsageError::PasswordWithServe),
        args.serve && !args.xplane && !args.msfs && args.password is None ==> launch_outcome(args) == Ok::<
                Launch,
                UsageError,
            >(Launch::Serve { port: args.serve_port }),
        args.serve && args.xplane != args.msfs && args.password is None ==> launch_outcome(args) == Ok::<
                Launch,
                UsageError,
            >(
                Launch::ServeAndJoin {
                    sim: if args.xplane { SimType::XPlane } else { SimType::Msfs },
                    port: args.serve_port,
                    master: args.master,
                },
            ),
        !args.serve && args.xplane != args.msfs && args.password is None ==> launch_outcome(args) == Err::<
                Launch,
                UsageError,
            >(UsageError::PasswordMissing),
        !args.serve && args.xplane != args.msfs && args.password is Some && args.address is None ==> launch_outcome(args)
                == Err::<Launch, UsageError>(UsageError::AddressMissing),
        !args.serve && args.xplane != args.msfs && args.password is Some && args.address is Some ==> (launch_outcome(args)
                matches Ok(Launch::Join { sim: s, address, password, master }) && s == (if args.xplane { SimType::XPlane } else { SimType::Msfs })
                && address == args.address->Some_0 && password == args.password->Some_0 && master
                == args.master),
{
}

/// Decides what the options ask for.
pub fn plan_launch(args: &Cli) -> (plan: Result<Launch, UsageError>)
    ensures
        plan == launch_outcome(*args),
        !args.serve && !args.xplane && !args.msfs ==> plan == Err::<Launch, UsageError>(
                UsageError::NoOptionSelected,
            ),
        args.xplane && args.msfs ==> plan == Err::<Launch, UsageError>(UsageError::MoreThanOneSim),
        args.serve && !(args.xplane && args.msfs) && args.password is Some ==> plan == Err::<
                Launch,
                UsageError,
            >(UsageError::PasswordWithServe),
        args.serve && !args.xplane && !args.msfs && args.password is None ==> plan == Ok::<
                Launch,
                UsageError,
            >(Launch::Serve { port: args.serve_port }),
        args.serve && args.xplane != args.msfs && args.password is None ==> plan == Ok::<
                Launch,
                UsageError,
            >(
                Launch::ServeAndJoin {
                    sim: if args.xplane { SimType::XPlane } else { SimType::Msfs },
                    port: args.serve_port,
                    master: args.master,
                },
            ),
        !args.serve && args.xplane != args.msfs && args.password is None ==> plan == Err::<
                Launch,
                UsageError,
            >(UsageError::PasswordMissing),
        !args.serve && args.xplane != args.msfs && args.password is Some && args.address is None ==> plan
                == Err::<Launch, UsageError>(UsageError::AddressMissing),
        !args.serve && args.xplane != args.msfs && args.password is Some && args.address is Some ==> (plan
                matches Ok(Launch::Join { sim: s, address, password, master }) && s == (if args.xplane { SimType::XPlane } else { SimType::Msfs })
                && address == args.address->Some_0 && password == args.password->Some_0 && master
                == args.master),
{
    let joins = args.xplane || args.msfs;
    if !args.serve && !joins {
        return Err(UsageError::NoOptionSelected);
    }
    if args.xplane && args.msfs {
        return Err(UsageError::MoreThanOneSim);
    }
    let sim = match SimType::from_args(args) {
        Some(s) => s,
        None => SimType::Msfs,
    };
    if args.serve {
        if args.password.is_some() {
            Err(UsageError::PasswordWithServe)
        } else if joins {
            Ok(Launch::ServeAndJoin { sim, port: args.serve_port, master: args.master })
        } else {
            Ok(Launch::Serve { port: args.serve_port })
        }
    } else {
        match (&args.password, &args.address) {
            (None, _) => Err(UsageError::PasswordMissing),
            (Some(_), None) => Err(UsageError::AddressMissing),
            (Some(password), Some(address)) => Ok(
                Launch::Join {
                    sim,
                    address: address.clone(),
                    password: *password,
                    master: args.master,
                },
            ),
        }
    }
}

} // verus!
