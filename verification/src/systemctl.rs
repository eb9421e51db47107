use vstd::prelude::*;
use vstd::string::StringExecFns;

verus! {

/// Handle on the init control utility for one unit. The unit is driven by
/// invoking that utility with the argument lists computed here; spawning it
/// is the caller's concern, outside this library. Each list is stated
/// exactly, so the caller runs precisely the command the contract names.
#[derive(Debug)]
pub struct Systemctl {
    pub name: String,
}

impl Systemctl {
    /// A handle for the unit of this name.
    pub fn new(name: &str) -> (r: Systemctl)
        ensures
            r.name@ == name@,
    {
        Systemctl { name: name.to_owned() }
    }

    /// The name of the init control utility itself.
    pub fn program() -> (r: &'static str)
        ensures
            r@ == "systemctl"@,
    {
        "systemctl"
    }

    /// Arguments that start the unit.
    pub fn start_args(&self) -> (r: Vec<String>)
        ensures
            r.deep_view() == seq!["start"@, self.name@],
    {
        self.pair("start")
    }

    /// Arguments that stop the unit; stopping an already-stopped unit is
    /// tolerated by the caller.
    pub fn stop_args(&self) -> (r: Vec<String>)
        ensures
            r.deep_view() == seq!["stop"@, self.name@],
    {
        self.pair("stop")
    }

    /// Arguments that query whether the unit is active.
    pub fn is_active_args(&self) -> (r: Vec<String>)
        ensures
            r.deep_view() == seq!["is-active"@, self.name@],
    {
        self.pair("is-active")
    }

    /// Arguments that disable the unit.
    pub fn disable_args(&self) -> (r: Vec<String>)
        ensures
            r.deep_view() == seq!["disable"@, self.name@],
    {
        self.pair("disable")
    }

    /// Arguments that reload the init daemon's unit cache.
    pub fn daemon_reload_args() -> (r: Vec<String>)
        ensures
            r.deep_view() == seq!["daemon-reload"@],
    {
        let mut v: Vec<String> = Vec::new();
        v.push(String::from_str("daemon-reload"));
        proof {
            assert(v.deep_view() =~= seq!["daemon-reload"@]);
        }
        v
    }

    /// Arguments that reset the init system's failed-state bookkeeping.
    pub fn reset_failed_args() -> (r: Vec<String>)
        ensures
            r.deep_view() == seq!["reset-failed"@],
    {
        let mut v: Vec<String> = Vec::new();
        v.push(String::from_str("reset-failed"));
        proof {
            assert(v.deep_view() =~= seq!["reset-failed"@]);
        }
        v
    }

    /// Does the utility's answer to `is-active` say the unit is active?
    pub fn parse_is_active(output: &str) -> (r: bool)
        ensures
            r == (output@ == "active"@),
    {
        let owned: String = output.to_owned();
        let active: String = String::from_str("active");
        owned == active
    }

    /// `<verb> <unit name>`, the shape of most of the utility's invocations.
    fn pair(&self, verb: &str) -> (r: Vec<String>)
        ensures
            r.deep_view() == seq![verb@, self.name@],
    {
        let mut v: Vec<String> = Vec::new();
        v.push(verb.to_owned());
        v.push(self.name.clone());
        proof {
            assert(v.deep_view() =~= seq![verb@, self.name@]);
        }
        v
    }
}

} // verus!
