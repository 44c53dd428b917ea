//! Source packages, whose leaf fields are template text, and the compiled
//! packages they resolve to.
use vstd::prelude::*;
use crate::error::{Error, Fault};
use crate::globals::Global;
use crate::input::{resolve, TemplateValue, TemplatedInput};
use crate::prompt::{PromptCollection, PromptResponse, PromptResponses};

verus! {

/// `r` is the executable outcome that `expected` describes.
pub open spec fn yields<A: View>(r: Result<A, Error>, expected: Result<A::V, Fault>) -> bool {
    match r {
        Ok(v) => expected == Ok::<A::V, Fault>(v@),
        Err(e) => expected == Err::<A::V, Fault>(e@),
    }
}

/// Resolves every item of `s` with `f`, in order, stopping at the first failure.
pub open spec fn resolve_all<A, B>(s: Seq<A>, f: spec_fn(A) -> Result<B, Fault>) -> Result<
    Seq<B>,
    Fault,
>
    decreases s.len(),
{
    if s.len() == 0 {
        Ok(Seq::empty())
    } else {
        match resolve_all(s.drop_last(), f) {
            Err(e) => Err(e),
            Ok(prefix) => match f(s.last()) {
                Err(e) => Err(e),
                Ok(b) => Ok(prefix.push(b)),
            },
        }
    }
}

proof fn lemma_resolve_all_step<A, B>(s: Seq<A>, i: int, f: spec_fn(A) -> Result<B, Fault>)
    requires
        0 <= i < s.len(),
    ensures
        resolve_all(s.take(i + 1), f) == (match resolve_all(s.take(i), f) {
            Err(e) => Err(e),
            Ok(prefix) => match f(s[i]) {
                Err(e) => Err(e),
                Ok(b) => Ok(prefix.push(b)),
            },
        }),
{
    assert(s.take(i + 1).drop_last() =~= s.take(i));
}

/// A failure on a prefix is the failure of the whole sequence.
proof fn lemma_resolve_all_fails<A, B>(s: Seq<A>, n: int, f: spec_fn(A) -> Result<B, Fault>)
    requires
        0 <= n <= s.len(),
        resolve_all(s.take(n), f) is Err,
    ensures
        resolve_all(s, f) == resolve_all(s.take(n), f),
    decreases s.len() - n,
{
    if n < s.len() {
        lemma_resolve_all_step(s, n, f);
        lemma_resolve_all_fails(s, n + 1, f);
    } else {
        assert(s.take(n) =~= s);
    }
}

/// Identifies a package: ordered by name, then by version.
#[derive(Debug, PartialEq, Eq, PartialOrd, Ord, Hash)]
pub struct PackageTitle {
    pub name: String,
    pub version: String,
}

pub ghost struct TitleView {
    pub name: Seq<char>,
    pub version: Seq<char>,
}

impl View for PackageTitle {
    type V = TitleView;

    open spec fn view(&self) -> TitleView {
        TitleView { name: self.name@, version: self.version@ }
    }
}

impl Clone for PackageTitle {
    fn clone(&self) -> (r: Self)
        ensures
            r == *self,
    {
        PackageTitle { name: self.name.clone(), version: self.version.clone() }
    }
}

/// `<name>-<version>`.
pub open spec fn title_text(t: TitleView) -> Seq<char> {
    t.name + "-"@ + t.version
}

impl PackageTitle {
    /// The title as `<name>-<version>`.
    pub fn to_string(&self) -> (r: String)
        ensures
            r@ == title_text(self@),
    {
        String::from_str(self.name.as_str()).concat("-").concat(self.version.as_str())
    }
}

pub open spec fn title_views(ts: Seq<PackageTitle>) -> Seq<TitleView> {
    ts.map_values(|t: PackageTitle| t@)
}

/// Copies a list of titles.
pub fn clone_titles(v: &Vec<PackageTitle>) -> (r: Vec<PackageTitle>)
    ensures
        r@ == v@,
{
    let mut out: Vec<PackageTitle> = Vec::new();
    let mut i: usize = 0;
    while i < v.len()
        invariant
            i <= v@.len(),
            out@ =~= v@.take(i as int),
        decreases v.len() - i,
    {
        out.push(v[i].clone());
        i = i + 1;
    }
    assert(v@.take(v@.len() as int) =~= v@);
    out
}

/// Where a package's image comes from: a URL for a virtual machine, or a
/// container reference.
#[derive(Debug, PartialEq, Eq)]
pub enum Source {
    URL(TemplatedInput<String>),
    Container(TemplatedInput<String>),
}

#[derive(Debug, PartialEq, Eq)]
pub enum CompiledSource {
    URL(String),
    Container(String),
}

pub ghost enum SourceView {
    URL(Seq<char>),
    Container(Seq<char>),
}

impl View for CompiledSource {
    type V = SourceView;

    open spec fn view(&self) -> SourceView {
        match self {
            CompiledSource::URL(s) => SourceView::URL(s@),
            CompiledSource::Container(s) => SourceView::Container(s@),
        }
    }
}

pub open spec fn source_spec(s: Source, rs: Seq<PromptResponse>) -> Result<SourceView, Fault> {
    match s {
        Source::URL(x) => match resolve::<String>(x.input@, "source"@, rs) {
            Ok(v) => Ok(SourceView::URL(v)),
            Err(e) => Err(e),
        },
        Source::Container(x) => match resolve::<String>(x.input@, "source"@, rs) {
            Ok(v) => Ok(SourceView::Container(v)),
            Err(e) => Err(e),
        },
    }
}

impl Source {
    /// The default source: the empty `scratch` container.
    pub fn scratch() -> (r: Self)
        ensures
            r matches Source::Container(x) && x.input@ == "scratch"@,
    {
        Source::Container(TemplatedInput::new("scratch"))
    }

    pub fn compile(
        &self,
        globals: &Global,
        prompts: &PromptCollection,
        responses: &PromptResponses,
    ) -> (r: Result<CompiledSource, Error>)
        ensures
            yields(r, source_spec(*self, responses.0@)),
    {
        match self {
            Source::URL(x) => match x.output("source", globals, prompts, responses) {
                Ok(v) => Ok(CompiledSource::URL(v)),
                Err(e) => Err(e),
            },
            Source::Container(x) => match x.output("source", globals, prompts, responses) {
                Ok(v) => Ok(CompiledSource::Container(v)),
                Err(e) => Err(e),
            },
        }
    }
}

/// The optional field resolved, or left out.
pub open spec fn resolve_optional(
    o: Option<TemplatedInput<String>>,
    field: Seq<char>,
    rs: Seq<PromptResponse>,
) -> Result<Option<Seq<char>>, Fault> {
    match o {
        None => Ok(None),
        Some(x) => match resolve::<String>(x.input@, field, rs) {
            Ok(v) => Ok(Some(v)),
            Err(e) => Err(e),
        },
    }
}

fn output_optional(
    o: &Option<TemplatedInput<String>>,
    field: &str,
    globals: &Global,
    prompts: &PromptCollection,
    responses: &PromptResponses,
) -> (r: Result<Option<String>, Error>)
    ensures
        match r {
            Ok(v) => resolve_optional(*o, field@, responses.0@) == Ok::<Option<Seq<char>>, Fault>(
                match v {
                    Some(s) => Some(s@),
                    None => None,
                },
            ),
            Err(e) => resolve_optional(*o, field@, responses.0@) == Err::<Option<Seq<char>>, Fault>(
                e@,
            ),
        },
{
    match o {
        None => Ok(None),
        Some(x) => match x.output(field, globals, prompts, responses) {
            Ok(v) => Ok(Some(v)),
            Err(e) => Err(e),
        },
    }
}

pub type Port = TemplatedInput<u16>;

/// A host port and a guest port, resolved in that order.
pub open spec fn resolve_pair(p: (Port, Port), field: Seq<char>, rs: Seq<PromptResponse>) -> Result<
    (u16, u16),
    Fault,
> {
    match resolve::<u16>(p.0.input@, field, rs) {
        Err(e) => Err(e),
        Ok(host) => match resolve::<u16>(p.1.input@, field, rs) {
            Err(e) => Err(e),
            Ok(guest) => Ok((host, guest)),
        },
    }
}

pub open spec fn pair_resolver(field: Seq<char>, rs: Seq<PromptResponse>) -> spec_fn(
    (Port, Port),
) -> Result<(u16, u16), Fault> {
    |p: (Port, Port)| resolve_pair(p, field, rs)
}

fn output_ports(
    ps: &Vec<(Port, Port)>,
    field: &str,
    globals: &Global,
    prompts: &PromptCollection,
    responses: &PromptResponses,
) -> (r: Result<Vec<(u16, u16)>, Error>)
    ensures
        yields(r, resolve_all(ps@, pair_resolver(field@, responses.0@))),
{
    let ghost f = pair_resolver(field@, responses.0@);
    let mut out: Vec<(u16, u16)> = Vec::new();
    let mut i: usize = 0;
    assert(ps@.take(0) =~= Seq::<(Port, Port)>::empty());
    while i < ps.len()
        invariant
            i <= ps@.len(),
            f == pair_resolver(field@, responses.0@),
            resolve_all(ps@.take(i as int), f) == Ok::<Seq<(u16, u16)>, Fault>(out@),
        decreases ps.len() - i,
    {
        proof {
            lemma_resolve_all_step(ps@, i as int, f);
        }
        let host = match ps[i].0.output(field, globals, prompts, responses) {
            Ok(v) => v,
            Err(e) => {
                proof {
                    lemma_resolve_all_fails(ps@, i + 1, f);
                }
                return Err(e);
            },
        };
        let guest = match ps[i].1.output(field, globals, prompts, responses) {
            Ok(v) => v,
            Err(e) => {
                proof {
                    lemma_resolve_all_fails(ps@, i + 1, f);
                }
                return Err(e);
            },
        };
        out.push((host, guest));
        i = i + 1;
    }
    assert(ps@.take(ps@.len() as int) =~= ps@);
    Ok(out)
}

/// Ports to forward and to expose, an internal network and a hostname.
#[derive(Debug, PartialEq, Eq)]
pub struct Networking {
    pub forward_ports: Vec<(Port, Port)>,
    pub expose_ports: Vec<(Port, Port)>,
    pub internal_network: Option<TemplatedInput<String>>,
    pub hostname: Option<TemplatedInput<String>>,
}

#[derive(Debug, PartialEq, Eq)]
pub struct CompiledNetworking {
    pub forward_ports: Vec<(u16, u16)>,
    pub expose_ports: Vec<(u16, u16)>,
    pub internal_network: Option<String>,
    pub hostname: Option<String>,
}

pub ghost struct NetworkingView {
    pub forward_ports: Seq<(u16, u16)>,
    pub expose_ports: Seq<(u16, u16)>,
    pub internal_network: Option<Seq<char>>,
    pub hostname: Option<Seq<char>>,
}

pub open spec fn optional_view(o: Option<String>) -> Option<Seq<char>> {
    match o {
        Some(s) => Some(s@),
        None => None,
    }
}

impl View for CompiledNetworking {
    type V = NetworkingView;

    open spec fn view(&self) -> NetworkingView {
        NetworkingView {
            forward_ports: self.forward_ports@,
            expose_ports: self.expose_ports@,
            internal_network: optional_view(self.internal_network),
            hostname: optional_view(self.hostname),
        }
    }
}

/// Networking with nothing forwarded, exposed or named.
pub open spec fn no_networking() -> NetworkingView {
    NetworkingView {
        forward_ports: Seq::empty(),
        expose_ports: Seq::empty(),
        internal_network: None,
        hostname: None,
    }
}

pub open spec fn networking_spec(n: Networking, rs: Seq<PromptResponse>) -> Result<
    NetworkingView,
    Fault,
> {
    match resolve_all(n.forward_ports@, pair_resolver("forward_ports"@, rs)) {
        Err(e) => Err(e),
        Ok(forward_ports) => match resolve_all(n.expose_ports@, pair_resolver("expose_ports"@, rs)) {
            Err(e) => Err(e),
            Ok(expose_ports) => match resolve_optional(n.internal_network, "internal_network"@, rs) {
                Err(e) => Err(e),
                Ok(internal_network) => match resolve_optional(n.hostname, "hostname"@, rs) {
                    Err(e) => Err(e),
                    Ok(hostname) => Ok(
                        NetworkingView { forward_ports, expose_ports, internal_network, hostname },
                    ),
                },
            },
        },
    }
}

impl Networking {
    pub fn compile(
        &self,
        globals: &Global,
        prompts: &PromptCollection,
        responses: &PromptResponses,
    ) -> (r: Result<CompiledNetworking, Error>)
        ensures
            yields(r, networking_spec(*self, responses.0@)),
    {
        let forward_ports = match output_ports(
            &self.forward_ports,
            "forward_ports",
            globals,
            prompts,
            responses,
        ) {
            Ok(v) => v,
            Err(e) => return Err(e),
        };
        let expose_ports = match output_ports(
            &self.expose_ports,
            "expose_ports",
            globals,
            prompts,
            responses,
        ) {
            Ok(v) => v,
            Err(e) => return Err(e),
        };
        let internal_network = match output_optional(
            &self.internal_network,
            "internal_network",
            globals,
            prompts,
            responses,
        ) {
            Ok(v) => v,
            Err(e) => return Err(e),
        };
        let hostname = match output_optional(
            &self.hostname,
            "hostname",
            globals,
            prompts,
            responses,
        ) {
            Ok(v) => v,
            Err(e) => return Err(e),
        };
        Ok(CompiledNetworking { forward_ports, expose_ports, internal_network, hostname })
    }
}

/// A volume: its name, size, optional mount point, and whether it is recreated
/// and kept private.
#[derive(Debug, PartialEq, Eq)]
pub struct Volume {
    pub name: TemplatedInput<String>,
    pub size: TemplatedInput<u64>,
    pub mountpoint: Option<TemplatedInput<String>>,
    pub recreate: TemplatedInput<bool>,
    pub private: TemplatedInput<bool>,
}

#[derive(Debug, PartialEq, Eq)]
pub struct CompiledVolume {
    pub name: String,
    pub size: u64,
    pub mountpoint: Option<String>,
    pub recreate: bool,
    pub private: bool,
}

pub ghost struct VolumeView {
    pub name: Seq<char>,
    pub size: u64,
    pub mountpoint: Option<Seq<char>>,
    pub recreate: bool,
    pub private: bool,
}

impl View for CompiledVolume {
    type V = VolumeView;

    open spec fn view(&self) -> VolumeView {
        VolumeView {
            name: self.name@,
            size: self.size,
            mountpoint: optional_view(self.mountpoint),
            recreate: self.recreate,
            private: self.private,
        }
    }
}

/// Resolves the mount point first, then name, size, recreate and private.
pub open spec fn volume_spec(v: Volume, rs: Seq<PromptResponse>) -> Result<VolumeView, Fault> {
    match resolve_optional(v.mountpoint, "mountpoint"@, rs) {
        Err(e) => Err(e),
        Ok(mountpoint) => match resolve::<String>(v.name.input@, "name"@, rs) {
            Err(e) => Err(e),
            Ok(name) => match resolve::<u64>(v.size.input@, "size"@, rs) {
                Err(e) => Err(e),
                Ok(size) => match resolve::<bool>(v.recreate.input@, "recreate"@, rs) {
                    Err(e) => Err(e),
                    Ok(recreate) => match resolve::<bool>(v.private.input@, "private"@, rs) {
                        Err(e) => Err(e),
                        Ok(private) => Ok(
                            VolumeView { name, size, mountpoint, recreate, private },
                        ),
                    },
                },
            },
        },
    }
}

impl Volume {
    pub fn compile(
        &self,
        globals: &Global,
        prompts: &PromptCollection,
        responses: &PromptResponses,
    ) -> (r: Result<CompiledVolume, Error>)
        ensures
            yields(r, volume_spec(*self, responses.0@)),
    {
        let mountpoint = match output_optional(
            &self.mountpoint,
            "mountpoint",
            globals,
            prompts,
            responses,
        ) {
            Ok(v) => v,
            Err(e) => return Err(e),
        };
        let name = match self.name.output("name", globals, prompts, responses) {
            Ok(v) => v,
            Err(e) => return Err(e),
        };
        let size = match self.size.output("size", globals, prompts, responses) {
            Ok(v) => v,
            Err(e) => return Err(e),
        };
        let recreate = match self.recreate.output("recreate", globals, prompts, responses) {
            Ok(v) => v,
            Err(e) => return Err(e),
        };
        let private = match self.private.output("private", globals, prompts, responses) {
            Ok(v) => v,
            Err(e) => return Err(e),
        };
        Ok(CompiledVolume { name, size, mountpoint, recreate, private })
    }
}

/// The volumes of a package, in declaration order.
#[derive(Debug, PartialEq, Eq)]
pub struct Storage {
    pub volumes: Vec<Volume>,
}

#[derive(Debug, PartialEq, Eq)]
pub struct CompiledStorage {
    pub volumes: Vec<CompiledVolume>,
}

pub ghost struct StorageView {
    pub volumes: Seq<VolumeView>,
}

impl View for CompiledStorage {
    type V = StorageView;

    open spec fn view(&self) -> StorageView {
        StorageView { volumes: self.volumes@.map_values(|v: CompiledVolume| v@) }
    }
}

pub open spec fn volume_resolver(rs: Seq<PromptResponse>) -> spec_fn(Volume) -> Result<
    VolumeView,
    Fault,
> {
    |v: Volume| volume_spec(v, rs)
}

pub open spec fn storage_spec(s: Storage, rs: Seq<PromptResponse>) -> Result<StorageView, Fault> {
    match resolve_all(s.volumes@, volume_resolver(rs)) {
        Err(e) => Err(e),
        Ok(volumes) => Ok(StorageView { volumes }),
    }
}

impl Storage {
    pub fn compile(
        &self,
        globals: &Global,
        prompts: &PromptCollection,
        responses: &PromptResponses,
    ) -> (r: Result<CompiledStorage, Error>)
        ensures
            yields(r, storage_spec(*self, responses.0@)),
    {
        let ghost f = volume_resolver(responses.0@);
        let mut out: Vec<CompiledVolume> = Vec::new();
        let mut i: usize = 0;
        assert(self.volumes@.take(0) =~= Seq::<Volume>::empty());
        assert(out@.map_values(|v: CompiledVolume| v@) =~= Seq::<VolumeView>::empty());
        while i < self.volumes.len()
            invariant
                i <= self.volumes@.len(),
                f == volume_resolver(responses.0@),
                resolve_all(self.volumes@.take(i as int), f) == Ok::<Seq<VolumeView>, Fault>(
                    out@.map_values(|v: CompiledVolume| v@),
                ),
            decreases self.volumes.len() - i,
        {
            proof {
                lemma_resolve_all_step(self.volumes@, i as int, f);
            }
            match self.volumes[i].compile(globals, prompts, responses) {
                Ok(v) => {
                    let ghost before = out@;
                    out.push(v);
                    assert(out@.map_values(|v: CompiledVolume| v@) =~= before.map_values(
                        |v: CompiledVolume| v@,
                    ).push(v@));
                },
                Err(e) => {
                    proof {
                        lemma_resolve_all_fails(self.volumes@, i + 1, f);
                    }
                    return Err(e);
                },
            }
            i = i + 1;
        }
        assert(self.volumes@.take(self.volumes@.len() as int) =~= self.volumes@);
        Ok(CompiledStorage { volumes: out })
    }
}

/// Host sharing and privileges of a container.
#[derive(Debug, PartialEq, Eq)]
pub struct System {
    pub host_pid: TemplatedInput<bool>,
    pub host_net: TemplatedInput<bool>,
    pub capabilities: Vec<TemplatedInput<String>>,
    pub privileged: TemplatedInput<bool>,
}

#[derive(Debug, PartialEq, Eq)]
pub struct CompiledSystem {
    pub host_pid: bool,
    pub host_net: bool,
    pub capabilities: Vec<String>,
    pub privileged: bool,
}

pub ghost struct SystemView {
    pub host_pid: bool,
    pub host_net: bool,
    pub capabilities: Seq<Seq<char>>,
    pub privileged: bool,
}

pub open spec fn string_views(v: Seq<String>) -> Seq<Seq<char>> {
    v.map_values(|s: String| s@)
}

impl View for CompiledSystem {
    type V = SystemView;

    open spec fn view(&self) -> SystemView {
        SystemView {
            host_pid: self.host_pid,
            host_net: self.host_net,
            capabilities: string_views(self.capabilities@),
            privileged: self.privileged,
        }
    }
}

pub open spec fn capability_resolver(rs: Seq<PromptResponse>) -> spec_fn(
    TemplatedInput<String>,
) -> Result<Seq<char>, Fault> {
    |c: TemplatedInput<String>| resolve::<String>(c.input@, "capabilities"@, rs)
}

/// Resolves the capabilities first, then host_pid, host_net and privileged.
pub open spec fn system_spec(s: System, rs: Seq<PromptResponse>) -> Result<SystemView, Fault> {
    match resolve_all(s.capabilities@, capability_resolver(rs)) {
        Err(e) => Err(e),
        Ok(capabilities) => match resolve::<bool>(s.host_pid.input@, "host_pid"@, rs) {
            Err(e) => Err(e),
            Ok(host_pid) => match resolve::<bool>(s.host_net.input@, "host_net"@, rs) {
                Err(e) => Err(e),
                Ok(host_net) => match resolve::<bool>(s.privileged.input@, "privileged"@, rs) {
                    Err(e) => Err(e),
                    Ok(privileged) => Ok(
                        SystemView { host_pid, host_net, capabilities, privileged },
                    ),
                },
            },
        },
    }
}

impl System {
    pub fn compile(
        &self,
        globals: &Global,
        prompts: &PromptCollection,
        responses: &PromptResponses,
    ) -> (r: Result<CompiledSystem, Error>)
        ensures
            yields(r, system_spec(*self, responses.0@)),
    {
        let ghost f = capability_resolver(responses.0@);
        let mut capabilities: Vec<String> = Vec::new();
        let mut i: usize = 0;
        assert(self.capabilities@.take(0) =~= Seq::<TemplatedInput<String>>::empty());
        assert(string_views(capabilities@) =~= Seq::<Seq<char>>::empty());
        while i < self.capabilities.len()
            invariant
                i <= self.capabilities@.len(),
                f == capability_resolver(responses.0@),
                resolve_all(self.capabilities@.take(i as int), f) == Ok::<Seq<Seq<char>>, Fault>(
                    string_views(capabilities@),
                ),
            decreases self.capabilities.len() - i,
        {
            proof {
                lemma_resolve_all_step(self.capabilities@, i as int, f);
            }
            match self.capabilities[i].output("capabilities", globals, prompts, responses) {
                Ok(c) => {
                    let ghost before = capabilities@;
                    capabilities.push(c);
                    assert(string_views(capabilities@) =~= string_views(before).push(c@));
                },
                Err(e) => {
                    proof {
                        lemma_resolve_all_fails(self.capabilities@, i + 1, f);
                    }
                    return Err(e);
                },
            }
            i = i + 1;
        }
        assert(self.capabilities@.take(self.capabilities@.len() as int) =~= self.capabilities@);
        let host_pid = match self.host_pid.output("host_pid", globals, prompts, responses) {
            Ok(v) => v,
            Err(e) => return Err(e),
        };
        let host_net = match self.host_net.output("host_net", globals, prompts, responses) {
            Ok(v) => v,
            Err(e) => return Err(e),
        };
        let privileged = match self.privileged.output("privileged", globals, prompts, responses) {
            Ok(v) => v,
            Err(e) => return Err(e),
        };
        Ok(CompiledSystem { host_pid, host_net, capabilities, privileged })
    }
}

/// Processor count and memory in megabytes.
#[derive(Debug, PartialEq, Eq)]
pub struct Resources {
    pub cpus: TemplatedInput<u64>,
    pub memory: TemplatedInput<u64>,
}

#[derive(Debug, Clone, Copy, PartialEq, Eq, Structural)]
pub struct CompiledResources {
    pub cpus: u64,
    pub memory: u64,
}

impl View for CompiledResources {
    type V = CompiledResources;

    open spec fn view(&self) -> CompiledResources {
        *self
    }
}

pub open spec fn resources_spec(r: Resources, rs: Seq<PromptResponse>) -> Result<
    CompiledResources,
    Fault,
> {
    match resolve::<u64>(r.cpus.input@, "cpus"@, rs) {
        Err(e) => Err(e),
        Ok(cpus) => match resolve::<u64>(r.memory.input@, "memory"@, rs) {
            Err(e) => Err(e),
            Ok(memory) => Ok(CompiledResources { cpus, memory }),
        },
    }
}

impl Resources {
    pub fn compile(
        &self,
        globals: &Global,
        prompts: &PromptCollection,
        responses: &PromptResponses,
    ) -> (r: Result<CompiledResources, Error>)
        ensures
            yields(r, resources_spec(*self, responses.0@)),
    {
        let cpus = match self.cpus.output("cpus", globals, prompts, responses) {
            Ok(v) => v,
            Err(e) => return Err(e),
        };
        let memory = match self.memory.output("memory", globals, prompts, responses) {
            Ok(v) => v,
            Err(e) => return Err(e),
        };
        Ok(CompiledResources { cpus, memory })
    }
}

/// A package as its author writes it: leaf fields are template text, and the
/// optional sections may be left out.
#[derive(Debug, PartialEq, Eq)]
pub struct SourcePackage {
    pub title: PackageTitle,
    pub description: String,
    pub dependencies: Option<Vec<PackageTitle>>,
    pub source: Source,
    pub networking: Option<Networking>,
    pub storage: Option<Storage>,
    pub system: Option<System>,
    pub resources: Option<Resources>,
    pub prompts: Option<PromptCollection>,
    /// The registry the package was loaded from, if any.
    pub root: Option<String>,
}

/// A package with every template resolved and every section present.
#[derive(Debug, PartialEq, Eq)]
pub struct CompiledPackage {
    pub title: PackageTitle,
    pub description: String,
    pub dependencies: Vec<PackageTitle>,
    pub source: CompiledSource,
    pub networking: CompiledNetworking,
    pub storage: CompiledStorage,
    pub system: CompiledSystem,
    pub resources: CompiledResources,
}

pub ghost struct PackageView {
    pub title: TitleView,
    pub description: Seq<char>,
    pub dependencies: Seq<TitleView>,
    pub source: SourceView,
    pub networking: NetworkingView,
    pub storage: StorageView,
    pub system: SystemView,
    pub resources: CompiledResources,
}

impl View for CompiledPackage {
    type V = PackageView;

    open spec fn view(&self) -> PackageView {
        PackageView {
            title: self.title@,
            description: self.description@,
            dependencies: title_views(self.dependencies@),
            source: self.source@,
            networking: self.networking@,
            storage: self.storage@,
            system: self.system@,
            resources: self.resources@,
        }
    }
}

pub open spec fn no_storage() -> StorageView {
    StorageView { volumes: Seq::empty() }
}

pub open spec fn no_system() -> SystemView {
    SystemView { host_pid: false, host_net: false, capabilities: Seq::empty(), privileged: false }
}

pub open spec fn no_resources() -> CompiledResources {
    CompiledResources { cpus: 0, memory: 0 }
}

pub open spec fn optional_networking(n: Option<Networking>, rs: Seq<PromptResponse>) -> Result<
    NetworkingView,
    Fault,
> {
    match n {
        Some(n) => networking_spec(n, rs),
        None => Ok(no_networking()),
    }
}

pub open spec fn optional_storage(s: Option<Storage>, rs: Seq<PromptResponse>) -> Result<
    StorageView,
    Fault,
> {
    match s {
        Some(s) => storage_spec(s, rs),
        None => Ok(no_storage()),
    }
}

pub open spec fn optional_system(s: Option<System>, rs: Seq<PromptResponse>) -> Result<
    SystemView,
    Fault,
> {
    match s {
        Some(s) => system_spec(s, rs),
        None => Ok(no_system()),
    }
}

pub open spec fn optional_resources(r: Option<Resources>, rs: Seq<PromptResponse>) -> Result<
    CompiledResources,
    Fault,
> {
    match r {
        Some(r) => resources_spec(r, rs),
        None => Ok(no_resources()),
    }
}

pub open spec fn dependency_views(d: Option<Vec<PackageTitle>>) -> Seq<TitleView> {
    match d {
        Some(d) => title_views(d@),
        None => Seq::empty(),
    }
}

/// The compiled package: title, description and dependencies as written, the
/// sections resolved in the order source, networking, storage, system,
/// resources, with an absent section taken as empty. The first failure is the
/// outcome.
pub open spec fn package_spec(p: SourcePackage, rs: Seq<PromptResponse>) -> Result<
    PackageView,
    Fault,
> {
    match source_spec(p.source, rs) {
        Err(e) => Err(e),
        Ok(source) => match optional_networking(p.networking, rs) {
            Err(e) => Err(e),
            Ok(networking) => match optional_storage(p.storage, rs) {
                Err(e) => Err(e),
                Ok(storage) => match optional_system(p.system, rs) {
                    Err(e) => Err(e),
                    Ok(system) => match optional_resources(p.resources, rs) {
                        Err(e) => Err(e),
                        Ok(resources) => Ok(
                            PackageView {
                                title: p.title@,
                                description: p.description@,
                                dependencies: dependency_views(p.dependencies),
                                source,
                                networking,
                                storage,
                                system,
                                resources,
                            },
                        ),
                    },
                },
            },
        },
    }
}

impl SourcePackage {
    /// Resolves every templated field against the responses. The package's
    /// global variables are reserved for later use and do not take part.
    pub fn compile(&self, globals: &Global, responses: &PromptResponses) -> (r: Result<
        CompiledPackage,
        Error,
    >)
        ensures
            yields(r, package_spec(*self, responses.0@)),
    {
        let prompts = match &self.prompts {
            Some(p) => p.clone(),
            None => PromptCollection::new(),
        };
        let source = match self.source.compile(globals, &prompts, responses) {
            Ok(v) => v,
            Err(e) => return Err(e),
        };
        let networking = match &self.networking {
            Some(n) => match n.compile(globals, &prompts, responses) {
                Ok(v) => v,
                Err(e) => return Err(e),
            },
            None => CompiledNetworking {
                forward_ports: Vec::new(),
                expose_ports: Vec::new(),
                internal_network: None,
                hostname: None,
            },
        };
        let storage = match &self.storage {
            Some(s) => match s.compile(globals, &prompts, responses) {
                Ok(v) => v,
                Err(e) => return Err(e),
            },
            None => {
                let c = CompiledStorage { volumes: Vec::new() };
                assert(c@.volumes =~= Seq::<VolumeView>::empty());
                c
            },
        };
        let system = match &self.system {
            Some(s) => match s.compile(globals, &prompts, responses) {
                Ok(v) => v,
                Err(e) => return Err(e),
            },
            None => {
                let c = CompiledSystem {
                    host_pid: false,
                    host_net: false,
                    capabilities: Vec::new(),
                    privileged: false,
                };
                assert(c@.capabilities =~= Seq::<Seq<char>>::empty());
                c
            },
        };
        let resources = match &self.resources {
            Some(r) => match r.compile(globals, &prompts, responses) {
                Ok(v) => v,
                Err(e) => return Err(e),
            },
            None => CompiledResources { cpus: 0, memory: 0 },
        };
        let dependencies = match &self.dependencies {
            Some(d) => clone_titles(d),
            None => Vec::new(),
        };
        assert(title_views(dependencies@) =~= dependency_views(self.dependencies));
        Ok(
            CompiledPackage {
                title: self.title.clone(),
                description: self.description.clone(),
                dependencies,
                source,
                networking,
                storage,
                system,
                resources,
            },
        )
    }
}

/// Compiling depends on the package and the responses alone: two compilations
/// of the same package with the same responses either both fail with the same
/// error or both give the same compiled package.
pub proof fn lemma_compile_idempotent(
    p: SourcePackage,
    responses: PromptResponses,
    first: Result<CompiledPackage, Error>,
    second: Result<CompiledPackage, Error>,
)
    requires
        yields(first, package_spec(p, responses.0@)),
        yields(second, package_spec(p, responses.0@)),
    ensures
        match (first, second) {
            (Ok(a), Ok(b)) => a@ == b@,
            (Err(a), Err(b)) => a@ == b@,
            _ => false,
        },
{
}

impl Default for PackageTitle {
    fn default() -> (r: Self)
        ensures
            r@.name.len() == 0 && r@.version.len() == 0,
    {
        PackageTitle { name: String::new(), version: String::new() }
    }
}

impl Default for SourcePackage {
    /// An untitled package of the `scratch` container with nothing else set.
    fn default() -> (r: Self)
        ensures
            r.title@.name.len() == 0 && r.title@.version.len() == 0,
            r.description@.len() == 0,
            r.dependencies is None,
            r.source matches Source::Container(x) && x.input@ == "scratch"@,
            r.networking is None && r.storage is None && r.system is None,
            r.resources is None && r.prompts is None && r.root is None,
    {
        SourcePackage {
            title: PackageTitle::default(),
            description: String::new(),
            dependencies: None,
            source: Source::scratch(),
            networking: None,
            storage: None,
            system: None,
            resources: None,
            prompts: None,
            root: None,
        }
    }
}

impl Default for CompiledPackage {
    /// What an untitled default package compiles to.
    fn default() -> (r: Self)
        ensures
            r@ == (PackageView {
                title: TitleView { name: Seq::empty(), version: Seq::empty() },
                description: Seq::empty(),
                dependencies: Seq::empty(),
                source: SourceView::Container("scratch"@),
                networking: no_networking(),
                storage: no_storage(),
                system: no_system(),
                resources: no_resources(),
            }),
    {
        let r = CompiledPackage {
            title: PackageTitle::default(),
            description: String::new(),
            dependencies: Vec::new(),
            source: CompiledSource::Container(String::from_str("scratch")),
            networking: CompiledNetworking {
                forward_ports: Vec::new(),
                expose_ports: Vec::new(),
                internal_network: None,
                hostname: None,
            },
            storage: CompiledStorage { volumes: Vec::new() },
            system: CompiledSystem {
                host_pid: false,
                host_net: false,
                capabilities: Vec::new(),
                privileged: false,
            },
            resources: CompiledResources { cpus: 0, memory: 0 },
        };
        assert(r@.title.name =~= Seq::<char>::empty());
        assert(r@.title.version =~= Seq::<char>::empty());
        assert(r@.description =~= Seq::<char>::empty());
        assert(r@.dependencies =~= Seq::<TitleView>::empty());
        assert(r@.storage.volumes =~= Seq::<VolumeView>::empty());
        assert(r@.system.capabilities =~= Seq::<Seq<char>>::empty());
        r
    }
}

} // verus!
