//! Build-target classification and the resource-compiler invocation.
//!
//! Reading the build environment and running the compiler are the
//! unverified shell's work; this module decides everything: which
//! toolchain a target triple names, which object extension it wants,
//! and the exact program and argument list of the resource compilation.

use vstd::prelude::*;

use crate::Error;
use crate::textfmt::spec_ends_with;
use crate::textfmt::str_ends_with;

verus! {

/// The toolchains whose resource path is known.
#[derive(Debug, Clone, Copy, PartialEq, Eq, Structural)]
pub enum Toolchain {
    MinGW,
    Msvc,
}

/// A classified build target: its triple and the toolchain it names.
#[derive(Debug)]
pub struct Target {
    pub target: String,
    pub toolchain: Toolchain,
}

/// A failure of the build helpers: carries a message.
pub fn io_err(msg: &str) -> (e: Error)
    ensures
        e matches Error::Other(m) && m@ == msg@,
{
    Error::Other(msg.to_owned())
}

/// One resource-compiler invocation: the program and its arguments.
#[derive(Debug)]
pub struct RcInvocation {
    pub program: String,
    pub args: Vec<String>,
}

impl Target {
    /// Classifies a build triple: a GNU-suffixed triple names the MinGW
    /// toolchain, an MSVC-suffixed one the MSVC toolchain, and anything
    /// else is refused with the triple named in the message.
    pub fn guess(target: String) -> (r: Result<Target, Error>)
        ensures
            spec_ends_with(target@, "-gnu"@) ==> (r matches Ok(t) && t.target@ == target@
                && t.toolchain == Toolchain::MinGW),
            !spec_ends_with(target@, "-gnu"@) && spec_ends_with(target@, "-msvc"@) ==> (
            r matches Ok(t) && t.target@ == target@ && t.toolchain == Toolchain::Msvc),
            !spec_ends_with(target@, "-gnu"@) && !spec_ends_with(target@, "-msvc"@) ==> (
            r matches Err(e) && e matches Error::Other(m) && m@
                == "unknown toolchain for target `"@ + target@ + "`"@),
    {
        let toolchain = if str_ends_with(target.as_str(), "-gnu") {
            Toolchain::MinGW
        } else if str_ends_with(target.as_str(), "-msvc") {
            Toolchain::Msvc
        } else {
            let mut m = "unknown toolchain for target `".to_owned();
            m.append(target.as_str());
            m.append("`");
            return Err(Error::Other(m));
        };
        Ok(Target { target, toolchain })
    }

    /// The extension of the compiled resource object this toolchain
    /// wants.
    pub fn res_ext(&self) -> (r: &'static str)
        ensures
            self.toolchain is MinGW ==> r@ == "o"@,
            self.toolchain is Msvc ==> r@ == "lib"@,
    {
        match self.toolchain {
            Toolchain::MinGW => "o",
            Toolchain::Msvc => "lib",
        }
    }

    /// The resource-compiler invocation for this toolchain: the MinGW
    /// resource compiler with its fixed argument shape, or the MSVC one
    /// at the path the shell located — refused, with the triple named,
    /// when the shell found none.
    pub fn rc_invocation(&self, input: &str, output: &str, msvc_rc_tool: Option<&str>) -> (r:
        Result<RcInvocation, Error>)
        ensures
            self.toolchain is MinGW ==> (r matches Ok(c) && c.program@ == "windres"@
                && c.args@.len() == 8 && c.args@[0]@ == "-J"@ && c.args@[1]@ == "rc"@
                && c.args@[2]@ == "-i"@ && c.args@[3]@ == input@ && c.args@[4]@ == "-O"@
                && c.args@[5]@ == "coff"@ && c.args@[6]@ == "-o"@ && c.args@[7]@
                == output@),
            self.toolchain is Msvc && msvc_rc_tool is Some ==> (r matches Ok(c)
                && c.program@ == msvc_rc_tool->Some_0@ && c.args@.len() == 4 && c.args@[0]@ == "/nologo"@
                && c.args@[1]@ == "/fo"@ && c.args@[2]@ == output@ && c.args@[3]@
                == input@),
            self.toolchain is Msvc && msvc_rc_tool is None ==> (r matches Err(e)
                && e matches Error::Other(m) && m@ == "could not find `rc` for target `"@
                + self.target@ + "`"@),
    {
        match self.toolchain {
            Toolchain::MinGW => {
                let mut args: Vec<String> = Vec::new();
                args.push("-J".to_owned());
                args.push("rc".to_owned());
                args.push("-i".to_owned());
                args.push(input.to_owned());
                args.push("-O".to_owned());
                args.push("coff".to_owned());
                args.push("-o".to_owned());
                args.push(output.to_owned());
                Ok(RcInvocation { program: "windres".to_owned(), args })
            },
            Toolchain::Msvc => {
                match msvc_rc_tool {
                    Some(tool) => {
                        let mut args: Vec<String> = Vec::new();
                        args.push("/nologo".to_owned());
                        args.push("/fo".to_owned());
                        args.push(output.to_owned());
                        args.push(input.to_owned());
                        Ok(RcInvocation { program: tool.to_owned(), args })
                    },
                    None => {
                        let mut m = "could not find `rc` for target `".to_owned();
                        m.append(self.target.as_str());
                        m.append("`");
                        Err(Error::Other(m))
                    },
                }
            },
        }
    }
}

} // verus!
