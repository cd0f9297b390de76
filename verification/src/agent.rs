//! How the program names itself to servers.
use vstd::prelude::*;
use vstd::string::StringExecFns;

verus! {

/// The program's name and version, and the machine that it runs on.
pub open spec fn user_agent_text(family: Seq<char>, os: Seq<char>, arch: Seq<char>) -> Seq<char> {
    "manga-tui/0.beta-testing1.0 ("@ + family + "/"@ + os + "/"@ + arch + ")"@
}

/// The program's name and version, and the machine that it runs on.
pub fn user_agent(family: &str, os: &str, arch: &str) -> (agent: String)
    ensures
        agent@ == user_agent_text(family@, os@, arch@),
{
    let mut agent = "manga-tui/0.beta-testing1.0 (".to_owned();
    agent.append(family);
    agent.append("/");
    agent.append(os);
    agent.append("/");
    agent.append(arch);
    agent.append(")");
    agent
}

} // verus!
