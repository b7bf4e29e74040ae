use vstd::prelude::*;

verus! {

/// HTTP phases in which a module can register handlers.
#[derive(PartialEq, Eq, Structural, Clone, Copy, Debug)]
pub enum NgxHttpPhases {
    /// Post-read phase
    PostRead,
    /// Server rewrite phase
    ServerRewrite,
    /// Find configuration phase
    FindConfig,
    /// Rewrite phase
    Rewrite,
    /// Post-rewrite phase
    PostRewrite,
    /// Pre-access phase
    Preaccess,
    /// Access phase
    Access,
    /// Post-access phase
    PostAccess,
    /// Pre-content phase
    PreContent,
    /// Content phase
    Content,
    /// Log phase
    Log,
}

/// Position of a phase in nginx's ordered list of phases.
pub open spec fn phase_index(p: NgxHttpPhases) -> u32 {
    match p {
        NgxHttpPhases::PostRead => 0,
        NgxHttpPhases::ServerRewrite => 1,
        NgxHttpPhases::FindConfig => 2,
        NgxHttpPhases::Rewrite => 3,
        NgxHttpPhases::PostRewrite => 4,
        NgxHttpPhases::Preaccess => 5,
        NgxHttpPhases::Access => 6,
        NgxHttpPhases::PostAccess => 7,
        NgxHttpPhases::PreContent => 8,
        NgxHttpPhases::Content => 9,
        NgxHttpPhases::Log => 10,
    }
}

impl NgxHttpPhases {
    /// The numeric value nginx uses for this phase (`ngx_http_phases`).
    pub fn index(self) -> (r: u32)
        ensures
            r == phase_index(self),
    {
        match self {
            NgxHttpPhases::PostRead => 0,
            NgxHttpPhases::ServerRewrite => 1,
            NgxHttpPhases::FindConfig => 2,
            NgxHttpPhases::Rewrite => 3,
            NgxHttpPhases::PostRewrite => 4,
            NgxHttpPhases::Preaccess => 5,
            NgxHttpPhases::Access => 6,
            NgxHttpPhases::PostAccess => 7,
            NgxHttpPhases::PreContent => 8,
            NgxHttpPhases::Content => 9,
            NgxHttpPhases::Log => 10,
        }
    }
}

} // verus!
