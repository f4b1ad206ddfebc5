//! Decisions taken before a helper is spawned: its port, its environment,
//! and which of its binaries is run.

use crate::decimal::{decimal_digits, decimal_text};
use crate::json::opt_text;
use crate::text::owned;
use vstd::prelude::*;

verus! {

/// The first of the ports a helper is offered where the caller names none.
pub const FIRST_PREFERRED_PORT: u16 = 8080;

/// How many ports, counted up from the first, are offered.
pub const PREFERRED_PORT_COUNT: usize = 6;

/// The first position at or after `from` that holds `true`.
pub open spec fn first_true(flags: Seq<bool>, from: int) -> Option<int>
    decreases flags.len() - from,
{
    if from < 0 || from >= flags.len() {
        None
    } else if flags[from] {
        Some(from)
    } else {
        first_true(flags, from + 1)
    }
}

pub fn find_first_true(flags: &Vec<bool>) -> (r: Option<usize>)
    ensures
        first_true(flags@, 0) == match r {
            Some(i) => Some(i as int),
            None => None,
        },
{
    let mut i: usize = 0;
    while i < flags.len()
        invariant
            i <= flags.len(),
            first_true(flags@, 0) == first_true(flags@, i as int),
        decreases flags.len() - i,
    {
        if flags[i] {
            return Some(i);
        }
        i = i + 1;
    }
    None
}

/// The port for a helper: the one asked for; else the first preferred port
/// that was found free, `free` telling this of each in order; else the one
/// the operating system assigned, if it assigned one.
pub open spec fn port_choice(requested: Option<u16>, free: Seq<bool>, assigned: Option<u16>) -> Option<
    u16,
> {
    match requested {
        Some(p) => Some(p),
        None => match first_true(free, 0) {
            Some(i) => if i < PREFERRED_PORT_COUNT {
                Some((FIRST_PREFERRED_PORT + i) as u16)
            } else {
                assigned
            },
            None => assigned,
        },
    }
}

pub fn pick_port(requested: Option<u16>, free: &Vec<bool>, assigned: Option<u16>) -> (r: Option<u16>)
    ensures
        r == port_choice(requested, free@, assigned),
{
    match requested {
        Some(p) => Some(p),
        None => {
            match find_first_true(free) {
                Some(i) => if i < PREFERRED_PORT_COUNT {
                    Some(FIRST_PREFERRED_PORT + (i as u16))
                } else {
                    assigned
                },
                None => assigned,
            }
        },
    }
}

/// One variable of a helper's environment.
#[derive(Debug, Clone, PartialEq, Eq)]
pub struct EnvVar {
    pub name: String,
    pub value: String,
}

pub ghost struct EnvVarView {
    pub name: Seq<char>,
    pub value: Seq<char>,
}

impl View for EnvVar {
    type V = EnvVarView;

    open spec fn view(&self) -> EnvVarView {
        EnvVarView { name: self.name@, value: self.value@ }
    }
}

pub open spec fn env_view(vars: Seq<EnvVar>) -> Seq<EnvVarView> {
    Seq::new(vars.len(), |i: int| vars[i]@)
}

/// A variable that is set only where a value is given.
pub open spec fn optional_var(name: Seq<char>, value: Option<Seq<char>>) -> Seq<EnvVarView> {
    match value {
        Some(v) => seq![EnvVarView { name, value: v }],
        None => Seq::<EnvVarView>::empty(),
    }
}

/// The environment of the long-running helper: its port and mode, then the
/// signature, the gateway, the owner and the configuration directory, each
/// where it is given.
pub open spec fn sidecar_environment_of(
    port: u16,
    master_key_signature: Option<Seq<char>>,
    gateway_url: Option<Seq<char>>,
    owner_address: Option<Seq<char>>,
    config_dir: Option<Seq<char>>,
) -> Seq<EnvVarView> {
    seq![
        EnvVarView { name: "PORT"@, value: decimal_digits(port as nat) },
        EnvVarView { name: "NODE_ENV"@, value: "production"@ },
    ] + optional_var("VANA_MASTER_KEY_SIGNATURE"@, master_key_signature) + optional_var(
        "GATEWAY_URL"@,
        gateway_url,
    ) + optional_var("OWNER_ADDRESS"@, owner_address) + optional_var("CONFIG_DIR"@, config_dir)
}

fn push_optional_var(vars: &mut Vec<EnvVar>, name: &str, value: &Option<String>)
    ensures
        env_view(final(vars)@) == env_view(old(vars)@) + optional_var(name@, opt_text(*value)),
{
    match value {
        Some(v) => {
            vars.push(EnvVar { name: owned(name), value: v.clone() });
        },
        None => {},
    }
    assert(env_view(vars@) =~= env_view(old(vars)@) + optional_var(name@, opt_text(*value)));
}

pub fn sidecar_environment(
    port: u16,
    master_key_signature: &Option<String>,
    gateway_url: &Option<String>,
    owner_address: &Option<String>,
    config_dir: &Option<String>,
) -> (r: Vec<EnvVar>)
    ensures
        env_view(r@) == sidecar_environment_of(
            port,
            opt_text(*master_key_signature),
            opt_text(*gateway_url),
            opt_text(*owner_address),
            opt_text(*config_dir),
        ),
{
    let mut vars: Vec<EnvVar> = Vec::new();
    vars.push(EnvVar { name: owned("PORT"), value: decimal_text(port as u64) });
    vars.push(EnvVar { name: owned("NODE_ENV"), value: owned("production") });
    assert(env_view(vars@) =~= seq![
        EnvVarView { name: "PORT"@, value: decimal_digits(port as nat) },
        EnvVarView { name: "NODE_ENV"@, value: "production"@ },
    ]);
    push_optional_var(&mut vars, "VANA_MASTER_KEY_SIGNATURE", master_key_signature);
    push_optional_var(&mut vars, "GATEWAY_URL", gateway_url);
    push_optional_var(&mut vars, "OWNER_ADDRESS", owner_address);
    push_optional_var(&mut vars, "CONFIG_DIR", config_dir);
    vars
}

/// What was found at one place where the helper's binary may lie.
#[derive(Debug, Clone, Copy, PartialEq, Eq, Structural)]
pub struct BinaryProbe {
    pub exists: bool,
    /// Whether the runtime assets that the binary loads lie beside it.
    pub has_runtime_assets: bool,
}

/// How the helper is run.
#[derive(Debug, Clone, Copy, PartialEq, Eq, Structural)]
pub enum LaunchPlan {
    /// The bundled binary at this place of the list.
    Bundled(usize),
    /// The binary built in the source tree.
    DevBinary,
    /// The script of the source tree, run by `node`.
    NodeScript,
    NotFound,
}

pub open spec fn usable(probes: Seq<BinaryProbe>) -> Seq<bool> {
    Seq::new(probes.len(), |i: int| probes[i].exists && probes[i].has_runtime_assets)
}

/// The first bundled binary that exists with its runtime assets beside it;
/// else, where the source tree exists, its built binary or its script.
pub open spec fn launch_plan(
    bundled: Seq<BinaryProbe>,
    source_tree_exists: bool,
    dev_binary_exists: bool,
) -> LaunchPlan {
    match first_true(usable(bundled), 0) {
        Some(i) => LaunchPlan::Bundled(i as usize),
        None => if !source_tree_exists {
            LaunchPlan::NotFound
        } else if dev_binary_exists {
            LaunchPlan::DevBinary
        } else {
            LaunchPlan::NodeScript
        },
    }
}

pub fn plan_launch(bundled: &Vec<BinaryProbe>, source_tree_exists: bool, dev_binary_exists: bool) -> (r:
    LaunchPlan)
    ensures
        r == launch_plan(bundled@, source_tree_exists, dev_binary_exists),
{
    let ghost flags = usable(bundled@);
    let mut i: usize = 0;
    while i < bundled.len()
        invariant
            i <= bundled.len(),
            flags == usable(bundled@),
            first_true(flags, 0) == first_true(flags, i as int),
        decreases bundled.len() - i,
    {
        if bundled[i].exists && bundled[i].has_runtime_assets {
            return LaunchPlan::Bundled(i);
        }
        i = i + 1;
    }
    if !source_tree_exists {
        LaunchPlan::NotFound
    } else if dev_binary_exists {
        LaunchPlan::DevBinary
    } else {
        LaunchPlan::NodeScript
    }
}

} // verus!
