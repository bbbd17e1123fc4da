//! The tool-process supervisor's rules: transactional reconfiguration of the
//! provider set, status reporting, catalog snapshots, and executable
//! resolution.
//!
//! Spawning child processes and performing RPC handshakes is the runtime's
//! work; it reports one `StartOutcome` per requested provider, and the rules
//! here turn those into the new connection set and the status report.

use vstd::prelude::*;

use crate::bytes::ascii_of;
use crate::bytes::copy_bytes;
use crate::bytes::push_bytes;
use crate::bytes::push_lit;
use crate::json::json_string_of;
use crate::json::push_json_string;

verus! {

/// One tool offered by a provider: immutable after the provider connects.
#[derive(Debug)]
pub struct ToolDescriptor {
    pub name: Vec<u8>,
    pub description: Vec<u8>,
    /// The JSON text of the tool's input schema.
    pub schema_json: Vec<u8>,
}

/// The mathematical image of a descriptor.
pub struct ToolDescriptorModel {
    pub name: Seq<u8>,
    pub description: Seq<u8>,
    pub schema_json: Seq<u8>,
}

impl View for ToolDescriptor {
    type V = ToolDescriptorModel;

    open spec fn view(&self) -> ToolDescriptorModel {
        ToolDescriptorModel {
            name: self.name@,
            description: self.description@,
            schema_json: self.schema_json@,
        }
    }
}

/// An exact copy of a descriptor.
pub fn clone_descriptor(d: &ToolDescriptor) -> (r: ToolDescriptor)
    ensures
        r@ == d@,
{
    ToolDescriptor {
        name: copy_bytes(&d.name),
        description: copy_bytes(&d.description),
        schema_json: copy_bytes(&d.schema_json),
    }
}

/// An exact copy of a catalog: same descriptors, same order.
pub fn clone_catalog(v: &Vec<ToolDescriptor>) -> (r: Vec<ToolDescriptor>)
    ensures
        r@.len() == v@.len(),
        forall|i: int| 0 <= i < v@.len() ==> r@[i]@ == v@[i]@,
{
    let mut r: Vec<ToolDescriptor> = Vec::new();
    let mut i: usize = 0;
    while i < v.len()
        invariant
            i <= v.len(),
            r@.len() == i,
            forall|k: int| 0 <= k < i ==> r@[k]@ == v@[k]@,
        decreases v.len() - i,
    {
        r.push(clone_descriptor(&v[i]));
        i = i + 1;
    }
    r
}

/// One provider spec as the configuration mapping names it.
#[derive(Debug)]
pub struct RawProviderSpec {
    pub name: Vec<u8>,
    /// Absent when the configuration entry has no launch command.
    pub command: Option<Vec<u8>>,
    pub args: Vec<Vec<u8>>,
    pub env: Vec<(Vec<u8>, Vec<u8>)>,
}

/// A validated launch request for one provider.
#[derive(Debug)]
pub struct LaunchPlan {
    pub name: Vec<u8>,
    pub command: Vec<u8>,
    pub args: Vec<Vec<u8>>,
    pub env: Vec<(Vec<u8>, Vec<u8>)>,
}

/// Accepts a spec that names a launch command; rejects the others with the
/// per-provider error message.
pub fn validate_provider_spec(raw: RawProviderSpec) -> (r: Result<LaunchPlan, Vec<u8>>)
    ensures
        raw.command is Some ==> r is Ok && r->Ok_0.name@ == raw.name@ && r->Ok_0.command@
            == raw.command->0@ && r->Ok_0.args == raw.args && r->Ok_0.env == raw.env,
        raw.command is None ==> r is Err && r->Err_0@ == ascii_of("Missing command"@),
{
    proof {
        reveal_strlit("Missing command");
    }
    match raw.command {
        Some(command) => Ok(
            LaunchPlan { name: raw.name, command, args: raw.args, env: raw.env },
        ),
        None => Err(crate::bytes::lit("Missing command")),
    }
}

/// One live provider connection: its configured name, its immutable catalog,
/// and the opaque handle under which the runtime knows the live RPC session.
#[derive(Debug)]
pub struct McpConnection {
    pub name: Vec<u8>,
    pub tools: Vec<ToolDescriptor>,
    pub peer: usize,
}

/// What the runtime reports for one requested provider during
/// reconfiguration.
#[derive(Debug)]
pub enum StartOutcome {
    /// The provider spawned, handshook and listed its tools.
    Connected { name: Vec<u8>, tools: Vec<ToolDescriptor>, peer: usize },
    /// Startup failed at some step; the message says where.
    Failed { name: Vec<u8>, message: Vec<u8> },
}

/// The per-provider status record of the report returned to the caller.
#[derive(Debug)]
pub enum ProviderStatus {
    Connected { name: Vec<u8>, tool_count: usize },
    Error { name: Vec<u8>, message: Vec<u8> },
}

/// The status record that one start outcome earns.
pub open spec fn status_matches(o: StartOutcome, s: ProviderStatus) -> bool {
    match o {
        StartOutcome::Connected { name, tools, .. } => match s {
            ProviderStatus::Connected { name: sn, tool_count } => sn@ == name@ && tool_count
                == tools@.len(),
            ProviderStatus::Error { .. } => false,
        },
        StartOutcome::Failed { name, message } => match s {
            ProviderStatus::Connected { .. } => false,
            ProviderStatus::Error { name: sn, message: sm } => sn@ == name@ && sm@ == message@,
        },
    }
}

/// The connection set is exactly the connected outcomes, in order: each
/// successful start contributes its connection, each failure contributes
/// nothing.
pub open spec fn conns_match(outs: Seq<StartOutcome>, conns: Seq<McpConnection>) -> bool
    decreases outs.len(),
{
    if outs.len() == 0 {
        conns.len() == 0
    } else {
        match outs.last() {
            StartOutcome::Connected { name, tools, peer } => conns.len() > 0 && conns.last().name@
                == name@ && conns.last().tools == tools && conns.last().peer == peer
                && conns_match(outs.drop_last(), conns.drop_last()),
            StartOutcome::Failed { .. } => conns_match(outs.drop_last(), conns),
        }
    }
}

/// How many outcomes connected.
pub open spec fn num_connected(outs: Seq<StartOutcome>) -> nat
    decreases outs.len(),
{
    if outs.len() == 0 {
        0
    } else {
        num_connected(outs.drop_last()) + if outs.last() is Connected {
            1nat
        } else {
            0nat
        }
    }
}

/// Tears down the whole connection set as one step, before any new provider
/// starts.  Returns the handles of the sessions the runtime must now cancel,
/// in order.
pub fn teardown_all(conns: &mut Vec<McpConnection>) -> (peers: Vec<usize>)
    ensures
        final(conns)@.len() == 0,
        peers@.len() == old(conns)@.len(),
        forall|i: int| 0 <= i < old(conns)@.len() ==> peers@[i] == old(conns)@[i].peer,
{
    let mut peers: Vec<usize> = Vec::new();
    let mut i: usize = 0;
    while i < conns.len()
        invariant
            i <= conns.len(),
            conns@ == old(conns)@,
            peers@.len() == i,
            forall|k: int| 0 <= k < i ==> peers@[k] == conns@[k].peer,
        decreases conns.len() - i,
    {
        peers.push(conns[i].peer);
        i = i + 1;
    }
    conns.clear();
    peers
}

/// Installs the outcome of one reconfiguration: the new connection set is
/// exactly the successful starts, and the status report mirrors every
/// outcome, failures included.  An empty request yields no connections and
/// an empty report.
pub fn apply_reconfigure(conns: &mut Vec<McpConnection>, outcomes: Vec<StartOutcome>) -> (statuses:
    Vec<ProviderStatus>)
    requires
        old(conns)@.len() == 0,
    ensures
        statuses@.len() == outcomes@.len(),
        forall|i: int|
            0 <= i < outcomes@.len() ==> status_matches(outcomes@[i], #[trigger] statuses@[i]),
        conns_match(outcomes@, final(conns)@),
        outcomes@.len() == 0 ==> final(conns)@.len() == 0 && statuses@.len() == 0,
{
    let ghost all = outcomes@;
    let mut rest = outcomes;
    let mut statuses: Vec<ProviderStatus> = Vec::new();
    while rest.len() > 0
        invariant
            statuses@.len() + rest@.len() == all.len(),
            rest@ == all.subrange(statuses@.len() as int, all.len() as int),
            forall|i: int|
                0 <= i < statuses@.len() ==> status_matches(all[i], #[trigger] statuses@[i]),
            conns_match(all.take(statuses@.len() as int), conns@),
        decreases rest.len(),
    {
        let ghost k = statuses@.len() as int;
        let o = rest.remove(0);
        proof {
            assert(o == all[k]);
            assert(all.take(k + 1).drop_last() =~= all.take(k));
            assert(all.take(k + 1).last() == all[k]);
        }
        match o {
            StartOutcome::Connected { name, tools, peer } => {
                let ghost prev = conns@;
                let count = tools.len();
                statuses.push(
                    ProviderStatus::Connected { name: copy_bytes(&name), tool_count: count },
                );
                conns.push(McpConnection { name, tools, peer });
                proof {
                    assert(conns@.drop_last() =~= prev);
                }
            },
            StartOutcome::Failed { name, message } => {
                statuses.push(ProviderStatus::Error { name, message });
            },
        }
        proof {
            assert(rest@ =~= all.subrange(k + 1, all.len() as int));
        }
    }
    proof {
        assert(all.take(statuses@.len() as int) =~= all);
    }
    statuses
}

/// Failures add a status record but never a connection; successes add both;
/// an empty request leaves nothing behind.
pub proof fn lemma_reconfigure_isolation(outs: Seq<StartOutcome>, conns: Seq<McpConnection>)
    requires
        conns_match(outs, conns),
    ensures
        outs.len() == 0 ==> conns.len() == 0,
        conns.len() == num_connected(outs),
        (forall|i: int| 0 <= i < outs.len() ==> !(#[trigger] outs[i] is Connected)) ==> conns.len()
            == 0,
    decreases outs.len(),
{
    if outs.len() > 0 {
        match outs.last() {
            StartOutcome::Connected { .. } => {
                lemma_reconfigure_isolation(outs.drop_last(), conns.drop_last());
                assert(forall|i: int|
                    0 <= i < outs.len() - 1 ==> outs.drop_last()[i] == #[trigger] outs[i]);
            },
            StartOutcome::Failed { .. } => {
                lemma_reconfigure_isolation(outs.drop_last(), conns);
                assert(forall|i: int|
                    0 <= i < outs.len() - 1 ==> outs.drop_last()[i] == #[trigger] outs[i]);
            },
        }
    }
}

/// `s` reports connection `c`: connected, same name, one count per tool.
pub open spec fn is_count_entry(s: ProviderStatus, c: McpConnection) -> bool {
    match s {
        ProviderStatus::Connected { name, tool_count } => name@ == c.name@ && tool_count
            == c.tools@.len(),
        ProviderStatus::Error { .. } => false,
    }
}

/// The current providers and their tool counts, without side effects.
pub fn status_of(conns: &Vec<McpConnection>) -> (r: Vec<ProviderStatus>)
    ensures
        r@.len() == conns@.len(),
        forall|i: int| 0 <= i < conns@.len() ==> is_count_entry(#[trigger] r@[i], conns@[i]),
{
    let mut r: Vec<ProviderStatus> = Vec::new();
    let mut i: usize = 0;
    while i < conns.len()
        invariant
            i <= conns.len(),
            r@.len() == i,
            forall|k: int| 0 <= k < i ==> is_count_entry(#[trigger] r@[k], conns@[k]),
        decreases conns.len() - i,
    {
        let c = &conns[i];
        let count = c.tools.len();
        r.push(ProviderStatus::Connected { name: copy_bytes(&c.name), tool_count: count });
        i = i + 1;
    }
    r
}

/// A turn-scoped snapshot for building one chat turn's tool set: each
/// connected provider's catalog (copied) with the handle to call it.  A
/// concurrent reconfiguration cannot disturb a snapshot already taken.
pub fn catalog_snapshot(conns: &Vec<McpConnection>) -> (r: Vec<(Vec<ToolDescriptor>, usize)>)
    ensures
        r@.len() == conns@.len(),
        forall|i: int|
            0 <= i < conns@.len() ==> (#[trigger] r@[i]).1 == conns@[i].peer && r@[i].0@.len()
                == conns@[i].tools@.len() && (forall|j: int|
                0 <= j < conns@[i].tools@.len() ==> (#[trigger] r@[i].0@[j])@
                    == conns@[i].tools@[j]@),
{
    let mut r: Vec<(Vec<ToolDescriptor>, usize)> = Vec::new();
    let mut i: usize = 0;
    while i < conns.len()
        invariant
            i <= conns.len(),
            r@.len() == i,
            forall|k: int|
                0 <= k < i ==> (#[trigger] r@[k]).1 == conns@[k].peer && r@[k].0@.len()
                    == conns@[k].tools@.len() && (forall|j: int|
                    0 <= j < conns@[k].tools@.len() ==> (#[trigger] r@[k].0@[j])@
                        == conns@[k].tools@[j]@),
        decreases conns.len() - i,
    {
        let c = &conns[i];
        r.push((clone_catalog(&c.tools), c.peer));
        i = i + 1;
    }
    r
}

/// `{"error":null,"name":N,"status":"connected"}`.
pub open spec fn status_entry_connected_of(name: Seq<u8>) -> Seq<u8> {
    ascii_of("{\"error\":null,\"name\":"@) + json_string_of(name) + ascii_of(
        ",\"status\":\"connected\"}"@,
    )
}

/// `{"error":E,"name":N,"status":"error"}`.
pub open spec fn status_entry_error_of(name: Seq<u8>, message: Seq<u8>) -> Seq<u8> {
    ascii_of("{\"error\":"@) + json_string_of(message) + ascii_of(",\"name\":"@) + json_string_of(
        name,
    ) + ascii_of(",\"status\":\"error\"}"@)
}

/// Renders one reconfiguration status record for the wire.
pub fn render_status_entry(s: &ProviderStatus) -> (r: Vec<u8>)
    ensures
        s matches ProviderStatus::Connected { name, .. } ==> r@ == status_entry_connected_of(
            name@,
        ),
        s matches ProviderStatus::Error { name, message } ==> r@ == status_entry_error_of(
            name@,
            message@,
        ),
{
    proof {
        reveal_strlit("{\"error\":null,\"name\":");
        reveal_strlit(",\"status\":\"connected\"}");
        reveal_strlit("{\"error\":");
        reveal_strlit(",\"name\":");
        reveal_strlit(",\"status\":\"error\"}");
    }
    let mut r: Vec<u8> = Vec::new();
    match s {
        ProviderStatus::Connected { name, .. } => {
            push_lit(&mut r, "{\"error\":null,\"name\":");
            push_json_string(&mut r, name);
            push_lit(&mut r, ",\"status\":\"connected\"}");
            assert(r@ =~= status_entry_connected_of(name@));
        },
        ProviderStatus::Error { name, message } => {
            push_lit(&mut r, "{\"error\":");
            push_json_string(&mut r, message);
            push_lit(&mut r, ",\"name\":");
            push_json_string(&mut r, name);
            push_lit(&mut r, ",\"status\":\"error\"}");
            assert(r@ =~= status_entry_error_of(name@, message@));
        },
    }
    r
}

/// `{"name":N,"status":"connected","tools_count":K}`: one entry of the
/// status query's report.
pub open spec fn status_entry_count_of(name: Seq<u8>, count: nat) -> Seq<u8> {
    ascii_of("{\"name\":"@) + json_string_of(name) + ascii_of(
        ",\"status\":\"connected\",\"tools_count\":"@,
    ) + crate::bytes::dec_of(count) + ascii_of("}"@)
}

/// Renders one entry of the status query's report.
pub fn render_status_count_entry(name: &Vec<u8>, count: usize) -> (r: Vec<u8>)
    ensures
        r@ == status_entry_count_of(name@, count as nat),
{
    proof {
        reveal_strlit("{\"name\":");
        reveal_strlit(",\"status\":\"connected\",\"tools_count\":");
        reveal_strlit("}");
    }
    let mut r: Vec<u8> = Vec::new();
    push_lit(&mut r, "{\"name\":");
    push_json_string(&mut r, name);
    push_lit(&mut r, ",\"status\":\"connected\",\"tools_count\":");
    crate::bytes::push_u64_dec(&mut r, count as u64);
    push_lit(&mut r, "}");
    assert(r@ =~= status_entry_count_of(name@, count as nat));
    r
}

/// The first index whose flag is set, or `-1` when none is.
pub open spec fn first_hit(flags: Seq<bool>) -> int
    decreases flags.len(),
{
    if flags.len() == 0 {
        -1
    } else if flags[0] {
        0
    } else if first_hit(flags.drop_first()) == -1 {
        -1
    } else {
        first_hit(flags.drop_first()) + 1
    }
}

proof fn lemma_first_hit_at(flags: Seq<bool>, i: int)
    requires
        0 <= i <= flags.len(),
        forall|k: int| 0 <= k < i ==> !flags[k],
        i < flags.len() ==> flags[i],
    ensures
        i == flags.len() ==> first_hit(flags) == -1,
        i < flags.len() ==> first_hit(flags) == i,
    decreases i + 1,
{
    if flags.len() == 0 {
    } else if i == 0 {
        if flags.len() > 0 && !flags[0] {
            lemma_first_hit_at(flags.drop_first(), 0);
        }
    } else {
        assert(!flags[0]);
        assert(forall|k: int| 0 <= k < i - 1 ==> !flags.drop_first()[k]);
        assert(i - 1 < flags.drop_first().len() ==> flags.drop_first()[i - 1]);
        lemma_first_hit_at(flags.drop_first(), i - 1);
    }
}

/// A directory joined with a file name, as path joining has it: an empty
/// directory contributes nothing, a `/`-terminated one is not doubled.
pub open spec fn joined_path_of(dir: Seq<u8>, name: Seq<u8>) -> Seq<u8> {
    if dir.len() == 0 {
        name
    } else if dir[dir.len() - 1] == 47 {
        dir + name
    } else {
        dir + seq![47u8] + name
    }
}

/// Joins a directory and a file name.
pub fn joined_path(dir: &Vec<u8>, name: &Vec<u8>) -> (r: Vec<u8>)
    ensures
        r@ == joined_path_of(dir@, name@),
{
    if dir.len() == 0 {
        return copy_bytes(name);
    }
    let mut r = copy_bytes(dir);
    if dir[dir.len() - 1] != 47 {
        r.push(47);
    }
    push_bytes(&mut r, name);
    assert(r@ =~= joined_path_of(dir@, name@));
    r
}

/// Resolves a launch command against a searched directory list: an absolute
/// command stands as it is; otherwise the first directory whose candidate
/// file exists wins; otherwise the bare command is kept.  `hits[i]` reports
/// whether `dirs[i]` joined with the command names a file.
pub fn resolve_command(command: &Vec<u8>, dirs: &Vec<Vec<u8>>, hits: &Vec<bool>) -> (r: Vec<u8>)
    requires
        dirs@.len() == hits@.len(),
    ensures
        command@.len() > 0 && command@[0] == 47 ==> r@ == command@,
        (command@.len() == 0 || command@[0] != 47) && first_hit(hits@) == -1 ==> r@ == command@,
        (command@.len() == 0 || command@[0] != 47) && first_hit(hits@) >= 0 ==> r@
            == joined_path_of(dirs@[first_hit(hits@)]@, command@),
{
    if command.len() > 0 && command[0] == 47 {
        return copy_bytes(command);
    }
    let mut i: usize = 0;
    while i < hits.len()
        invariant
            i <= hits.len(),
            dirs@.len() == hits@.len(),
            forall|k: int| 0 <= k < i ==> !hits@[k],
        decreases hits.len() - i,
    {
        if hits[i] {
            proof {
                lemma_first_hit_at(hits@, i as int);
            }
            return joined_path(&dirs[i], command);
        }
        i = i + 1;
    }
    proof {
        lemma_first_hit_at(hits@, hits@.len() as int);
    }
    copy_bytes(command)
}

/// The fixed directories searched for provider executables, given the home
/// directory: user-local, package-manager and language-toolchain locations,
/// in search order.
pub open spec fn path_candidates_of(home: Seq<u8>) -> Seq<Seq<u8>> {
    seq![
        home + ascii_of("/.local/bin"@),
        ascii_of("/opt/homebrew/bin"@),
        ascii_of("/usr/local/bin"@),
        ascii_of("/opt/local/bin"@),
        home + ascii_of("/.cargo/bin"@),
        home + ascii_of("/go/bin"@),
    ]
}

/// Builds the fixed candidate directory list.
pub fn path_candidates(home: &Vec<u8>) -> (r: Vec<Vec<u8>>)
    ensures
        r@.len() == 6,
        forall|i: int| 0 <= i < 6 ==> (#[trigger] r@[i])@ == path_candidates_of(home@)[i],
{
    proof {
        reveal_strlit("/.local/bin");
        reveal_strlit("/opt/homebrew/bin");
        reveal_strlit("/usr/local/bin");
        reveal_strlit("/opt/local/bin");
        reveal_strlit("/.cargo/bin");
        reveal_strlit("/go/bin");
    }
    let mut r: Vec<Vec<u8>> = Vec::new();
    let mut p0 = copy_bytes(home);
    push_lit(&mut p0, "/.local/bin");
    r.push(p0);
    r.push(crate::bytes::lit("/opt/homebrew/bin"));
    r.push(crate::bytes::lit("/usr/local/bin"));
    r.push(crate::bytes::lit("/opt/local/bin"));
    let mut p4 = copy_bytes(home);
    push_lit(&mut p4, "/.cargo/bin");
    r.push(p4);
    let mut p5 = copy_bytes(home);
    push_lit(&mut p5, "/go/bin");
    r.push(p5);
    r
}

/// The candidates whose flag is set, in order.
pub open spec fn kept_dirs_of(cands: Seq<Seq<u8>>, flags: Seq<bool>) -> Seq<Seq<u8>>
    decreases cands.len(),
{
    if cands.len() == 0 {
        Seq::empty()
    } else {
        let rest = kept_dirs_of(cands.drop_last(), flags);
        if cands.len() <= flags.len() && flags[cands.len() - 1] {
            rest.push(cands.last())
        } else {
            rest
        }
    }
}

/// The parts of the provider search path, in order: the version-manager
/// binary directories, each existing fixed candidate, and the process's own
/// search path when it is non-empty.
pub open spec fn search_path_parts_of(
    nvm: Seq<Seq<u8>>,
    home: Seq<u8>,
    flags: Seq<bool>,
    existing: Seq<u8>,
) -> Seq<Seq<u8>> {
    nvm + kept_dirs_of(path_candidates_of(home), flags) + if existing.len() > 0 {
        seq![existing]
    } else {
        Seq::<Seq<u8>>::empty()
    }
}

/// Assembles the search path used to resolve provider executables, joined
/// with `:`.  `candidate_exists[i]` reports whether the i-th fixed candidate
/// directory exists; scanning directories and reading the environment is the
/// runtime's work.
pub fn assemble_search_path(
    nvm_bin_dirs: Vec<Vec<u8>>,
    home: &Vec<u8>,
    candidate_exists: &Vec<bool>,
    existing_path: &Vec<u8>,
) -> (r: Vec<u8>)
    requires
        candidate_exists@.len() == 6,
    ensures
        r@ == crate::bytes::join_of(
            search_path_parts_of(
                nvm_bin_dirs@.map_values(|p: Vec<u8>| p@),
                home@,
                candidate_exists@,
                existing_path@,
            ),
            seq![58u8],
        ),
{
    let ghost nvmv = nvm_bin_dirs@.map_values(|p: Vec<u8>| p@);
    let ghost candsv = path_candidates_of(home@);
    let cands = path_candidates(home);
    let mut parts = nvm_bin_dirs;
    proof {
        assert(kept_dirs_of(candsv.take(0), candidate_exists@) =~= Seq::<Seq<u8>>::empty());
        assert(parts@.map_values(|p: Vec<u8>| p@) =~= nvmv + kept_dirs_of(
            candsv.take(0),
            candidate_exists@,
        ));
    }
    let mut i: usize = 0;
    while i < 6
        invariant
            i <= 6,
            nvmv == nvm_bin_dirs@.map_values(|p: Vec<u8>| p@),
            candsv == path_candidates_of(home@),
            candidate_exists@.len() == 6,
            cands@.len() == 6,
            forall|k: int| 0 <= k < 6 ==> (#[trigger] cands@[k])@ == candsv[k],
            parts@.map_values(|p: Vec<u8>| p@) == nvmv + kept_dirs_of(
                candsv.take(i as int),
                candidate_exists@,
            ),
        decreases 6 - i,
    {
        let ghost before = parts@.map_values(|p: Vec<u8>| p@);
        proof {
            assert(candsv.take(i + 1).drop_last() =~= candsv.take(i as int));
            assert(candsv.take(i + 1).last() == candsv[i as int]);
        }
        if candidate_exists[i] {
            parts.push(copy_bytes(&cands[i]));
            proof {
                assert(parts@.map_values(|p: Vec<u8>| p@) =~= before.push(candsv[i as int]));
            }
        }
        i = i + 1;
    }
    proof {
        assert(candsv.take(6) =~= candsv);
    }
    let ghost mid = parts@.map_values(|p: Vec<u8>| p@);
    if existing_path.len() > 0 {
        parts.push(copy_bytes(existing_path));
        proof {
            assert(parts@.map_values(|p: Vec<u8>| p@) =~= mid.push(existing_path@));
        }
    }
    proof {
        reveal_strlit(":");
    }
    let sep = crate::bytes::lit(":");
    assert(sep@ =~= seq![58u8]);
    let r = crate::bytes::join_bytes(&parts, &sep);
    proof {
        assert(parts@.map_values(|p: Vec<u8>| p@) =~= search_path_parts_of(
            nvmv,
            home@,
            candidate_exists@,
            existing_path@,
        ));
    }
    r
}

} // verus!
