//! Command lines for the two backends: a container runtime and a hypervisor.
use vstd::prelude::*;
use crate::error::{Error, Fault};
use crate::package::{
    string_views, title_text, CompiledPackage, CompiledSource, CompiledVolume, PackageView,
    SourceView, VolumeView,
};
use crate::text::{decimal, join_path, join_path_text, u64_text};

verus! {

pub const PODMAN_COMMAND: &'static str = "podman";

pub const QEMU_COMMAND: &'static str = "qemu-system-x86_64";

/// The file under the volume root that holds a virtual machine's disk image.
pub const QEMU_IMAGE_FILENAME: &'static str = "image";

/// The socket under the volume root on which a virtual machine is monitored.
pub const QEMU_MONITOR_FILENAME: &'static str = "qemu-monitor";

pub const CONTAINER_SOURCE_REQUIRED: &'static str = "source is not a container image; cannot run it with podman";

pub open spec fn optional_args(flag: Seq<char>, o: Option<Seq<char>>) -> Seq<Seq<char>> {
    match o {
        Some(v) => seq![flag, v],
        None => Seq::empty(),
    }
}

pub open spec fn flag_args(on: bool, args: Seq<Seq<char>>) -> Seq<Seq<char>> {
    if on {
        args
    } else {
        Seq::empty()
    }
}

/// `host:guest`.
pub open spec fn port_map(p: (u16, u16)) -> Seq<char> {
    decimal(p.0 as nat) + ":"@ + decimal(p.1 as nat)
}

/// One `-p host:guest` per port pair, in order.
pub open spec fn port_args(ps: Seq<(u16, u16)>) -> Seq<Seq<char>>
    decreases ps.len(),
{
    if ps.len() == 0 {
        Seq::empty()
    } else {
        port_args(ps.drop_last()) + seq!["-p"@, port_map(ps.last())]
    }
}

pub open spec fn mount_mode(private: bool) -> Seq<char> {
    if private {
        "rprivate"@
    } else {
        "rshared"@
    }
}

/// One `-v <root>/<name>:<mountpoint>:<mode>` per volume with a mount point,
/// in order; volumes without one are left out.
pub open spec fn volume_args(vs: Seq<VolumeView>, root: Seq<char>) -> Seq<Seq<char>>
    decreases vs.len(),
{
    if vs.len() == 0 {
        Seq::empty()
    } else {
        volume_args(vs.drop_last(), root) + match vs.last().mountpoint {
            Some(m) => seq![
                "-v"@,
                join_path(root, vs.last().name) + ":"@ + m + ":"@ + mount_mode(vs.last().private),
            ],
            None => Seq::empty(),
        }
    }
}

/// One `--cap-add <cap>` per capability, in order.
pub open spec fn capability_args(cs: Seq<Seq<char>>) -> Seq<Seq<char>>
    decreases cs.len(),
{
    if cs.len() == 0 {
        Seq::empty()
    } else {
        capability_args(cs.drop_last()) + seq!["--cap-add"@, cs.last()]
    }
}

/// The container runtime's arguments for a package whose image is `image`.
pub open spec fn container_args(p: PackageView, image: Seq<char>, root: Seq<char>) -> Seq<
    Seq<char>,
> {
    seq![PODMAN_COMMAND@, "--name"@, title_text(p.title)] + optional_args(
        "--hostname"@,
        p.networking.hostname,
    ) + optional_args("--network"@, p.networking.internal_network) + port_args(
        p.networking.forward_ports,
    ) + port_args(p.networking.expose_ports) + volume_args(p.storage.volumes, root) + flag_args(
        p.system.host_pid,
        seq!["--pid"@, "host"@],
    ) + flag_args(
        p.system.host_net && p.networking.internal_network is None,
        seq!["--network"@, "host"@],
    ) + flag_args(p.system.privileged, seq!["--privileged"@]) + capability_args(
        p.system.capabilities,
    ) + seq!["-d"@, image]
}

pub open spec fn container_command(p: PackageView, root: Seq<char>) -> Result<
    Seq<Seq<char>>,
    Fault,
> {
    match p.source {
        SourceView::Container(image) => Ok(container_args(p, image, root)),
        SourceView::URL(_) => Err(Fault::BackendMismatch(CONTAINER_SOURCE_REQUIRED@)),
    }
}

/// `,hostfwd=tcp:0.0.0.0:<host>-:<guest>`.
pub open spec fn hostfwd(p: (u16, u16)) -> Seq<char> {
    ",hostfwd=tcp:0.0.0.0:"@ + decimal(p.0 as nat) + "-:"@ + decimal(p.1 as nat)
}

pub open spec fn hostfwd_rules(ps: Seq<(u16, u16)>) -> Seq<char>
    decreases ps.len(),
{
    if ps.len() == 0 {
        Seq::empty()
    } else {
        hostfwd_rules(ps.drop_last()) + hostfwd(ps.last())
    }
}

pub open spec fn drive(file: Seq<char>, index: nat) -> Seq<char> {
    "driver=raw,if=virtio,file="@ + file + ",cache=none,media=disk,index="@ + decimal(index)
}

/// One `-drive` per volume, in order, at index position + 1.
pub open spec fn drive_args(vs: Seq<VolumeView>, root: Seq<char>) -> Seq<Seq<char>>
    decreases vs.len(),
{
    if vs.len() == 0 {
        Seq::empty()
    } else {
        drive_args(vs.drop_last(), root) + seq![
            "-drive"@,
            drive(join_path(root, vs.last().name), vs.len()),
        ]
    }
}

pub open spec fn smp(n: u64) -> Seq<char> {
    "cpus="@ + decimal(n as nat) + ",cores="@ + decimal(n as nat) + ",maxcpus="@ + decimal(
        n as nat,
    )
}

pub open spec fn is_reserved(name: Seq<char>) -> bool {
    name == QEMU_IMAGE_FILENAME@ || name == QEMU_MONITOR_FILENAME@
}

/// The name of the first volume that is named like a reserved file.
pub open spec fn first_reserved(vs: Seq<VolumeView>) -> Option<Seq<char>>
    decreases vs.len(),
{
    if vs.len() == 0 {
        None
    } else if is_reserved(vs[0].name) {
        Some(vs[0].name)
    } else {
        first_reserved(vs.drop_first())
    }
}

/// The hypervisor's arguments: the fixed preamble, memory, processors, one
/// user network with every forwarded then exposed port, the image drive at
/// index 0 and one drive per volume after it.
pub open spec fn vm_args(p: PackageView, root: Seq<char>) -> Seq<Seq<char>> {
    seq![
        QEMU_COMMAND@,
        "-nodefaults"@,
        "-chardev"@,
        "socket,server=on,wait=off,id=char0,path="@ + join_path(root, QEMU_MONITOR_FILENAME@),
        "-mon"@,
        "chardev=char0,mode=control,pretty=on"@,
        "-machine"@,
        "accel=kvm"@,
        "-vga"@,
        "none"@,
        "-m"@,
        decimal(p.resources.memory as nat) + "M"@,
        "-cpu"@,
        "max"@,
        "-smp"@,
        smp(p.resources.cpus),
        "-nic"@,
        "user"@ + hostfwd_rules(p.networking.forward_ports) + hostfwd_rules(
            p.networking.expose_ports,
        ),
        "-drive"@,
        drive(join_path(root, QEMU_IMAGE_FILENAME@), 0),
    ] + drive_args(p.storage.volumes, root)
}

pub open spec fn vm_command(p: PackageView, root: Seq<char>) -> Result<Seq<Seq<char>>, Fault> {
    match first_reserved(p.storage.volumes) {
        Some(name) => Err(Fault::ReservedName(name)),
        None => Ok(vm_args(p, root)),
    }
}

/// The command for the package's backend: the hypervisor for a URL source,
/// the container runtime for a container source.
pub open spec fn command_spec(p: PackageView, root: Seq<char>) -> Result<Seq<Seq<char>>, Fault> {
    match p.source {
        SourceView::URL(_) => vm_command(p, root),
        SourceView::Container(_) => container_command(p, root),
    }
}

/// `r` is the argument vector, or the failure, that `expected` describes.
pub open spec fn yields_args(r: Result<Vec<String>, Error>, expected: Result<Seq<Seq<char>>, Fault>) -> bool {
    match r {
        Ok(v) => expected == Ok::<Seq<Seq<char>>, Fault>(string_views(v@)),
        Err(e) => expected == Err::<Seq<Seq<char>>, Fault>(e@),
    }
}

fn push_arg(cmd: &mut Vec<String>, arg: String)
    ensures
        string_views(final(cmd)@) == string_views(old(cmd)@).push(arg@),
{
    let ghost before = cmd@;
    cmd.push(arg);
    assert(string_views(cmd@) =~= string_views(before).push(arg@));
}

fn push_pair(cmd: &mut Vec<String>, first: String, second: String)
    ensures
        string_views(final(cmd)@) == string_views(old(cmd)@) + seq![first@, second@],
{
    let ghost before = string_views(cmd@);
    push_arg(cmd, first);
    push_arg(cmd, second);
    assert(string_views(cmd@) =~= before + seq![first@, second@]);
}

fn push_port_args(cmd: &mut Vec<String>, ps: &Vec<(u16, u16)>)
    ensures
        string_views(final(cmd)@) == string_views(old(cmd)@) + port_args(ps@),
{
    let ghost start = string_views(cmd@);
    let mut i: usize = 0;
    assert(ps@.take(0) =~= Seq::<(u16, u16)>::empty());
    assert(start + port_args(ps@.take(0)) =~= start);
    while i < ps.len()
        invariant
            i <= ps@.len(),
            string_views(cmd@) == start + port_args(ps@.take(i as int)),
        decreases ps.len() - i,
    {
        assert(ps@.take(i + 1).drop_last() =~= ps@.take(i as int));
        assert(ps@.take(i + 1).last() == ps@[i as int]);
        let (host, guest) = ps[i];
        let map = u64_text(host as u64).concat(":").concat(u64_text(guest as u64).as_str());
        push_pair(cmd, String::from_str("-p"), map);
        assert(string_views(cmd@) =~= start + port_args(ps@.take(i + 1)));
        i = i + 1;
    }
    assert(ps@.take(ps@.len() as int) =~= ps@);
}

pub open spec fn volume_views(vs: Seq<CompiledVolume>) -> Seq<VolumeView> {
    vs.map_values(|v: CompiledVolume| v@)
}

fn push_volume_args(cmd: &mut Vec<String>, vs: &Vec<CompiledVolume>, root: &str)
    ensures
        string_views(final(cmd)@) == string_views(old(cmd)@) + volume_args(
            volume_views(vs@),
            root@,
        ),
{
    let ghost start = string_views(cmd@);
    let mut i: usize = 0;
    assert(volume_views(vs@.take(0)) =~= Seq::<VolumeView>::empty());
    assert(start + volume_args(volume_views(vs@.take(0)), root@) =~= start);
    while i < vs.len()
        invariant
            i <= vs@.len(),
            string_views(cmd@) == start + volume_args(volume_views(vs@.take(i as int)), root@),
        decreases vs.len() - i,
    {
        let ghost prefix = volume_views(vs@.take(i + 1));
        assert(prefix.drop_last() =~= volume_views(vs@.take(i as int)));
        assert(prefix.last() == vs@[i as int]@);
        let volume = &vs[i];
        match &volume.mountpoint {
            Some(m) => {
                let mode = if volume.private {
                    String::from_str("rprivate")
                } else {
                    String::from_str("rshared")
                };
                let map = join_path_text(root, volume.name.as_str()).concat(":").concat(
                    m.as_str(),
                ).concat(":").concat(mode.as_str());
                push_pair(cmd, String::from_str("-v"), map);
            },
            None => {},
        }
        assert(string_views(cmd@) =~= start + volume_args(prefix, root@));
        i = i + 1;
    }
    assert(vs@.take(vs@.len() as int) =~= vs@);
}

fn push_capability_args(cmd: &mut Vec<String>, cs: &Vec<String>)
    ensures
        string_views(final(cmd)@) == string_views(old(cmd)@) + capability_args(string_views(cs@)),
{
    let ghost start = string_views(cmd@);
    let mut i: usize = 0;
    assert(string_views(cs@.take(0)) =~= Seq::<Seq<char>>::empty());
    assert(start + capability_args(string_views(cs@.take(0))) =~= start);
    while i < cs.len()
        invariant
            i <= cs@.len(),
            string_views(cmd@) == start + capability_args(string_views(cs@.take(i as int))),
        decreases cs.len() - i,
    {
        let ghost prefix = string_views(cs@.take(i + 1));
        assert(prefix.drop_last() =~= string_views(cs@.take(i as int)));
        assert(prefix.last() == cs@[i as int]@);
        push_pair(cmd, String::from_str("--cap-add"), cs[i].clone());
        assert(string_views(cmd@) =~= start + capability_args(prefix));
        i = i + 1;
    }
    assert(cs@.take(cs@.len() as int) =~= cs@);
}

/// The container runtime's command line for the package.
pub fn generate_container_command(package: &CompiledPackage, volume_root: &String) -> (r: Result<
    Vec<String>,
    Error,
>)
    ensures
        yields_args(r, container_command(package@, volume_root@)),
{
    let image = match &package.source {
        CompiledSource::Container(name) => name,
        CompiledSource::URL(_) => {
            return Err(Error::BackendMismatch(String::from_str(CONTAINER_SOURCE_REQUIRED)));
        },
    };
    let ghost p = package@;
    let mut cmd: Vec<String> = Vec::new();
    push_arg(&mut cmd, String::from_str(PODMAN_COMMAND));
    push_pair(&mut cmd, String::from_str("--name"), package.title.to_string());
    assert(string_views(cmd@) =~= seq![PODMAN_COMMAND@, "--name"@, title_text(p.title)]);
    let ghost s1 = string_views(cmd@);
    match &package.networking.hostname {
        Some(h) => push_pair(&mut cmd, String::from_str("--hostname"), h.clone()),
        None => {},
    }
    assert(string_views(cmd@) =~= s1 + optional_args("--hostname"@, p.networking.hostname));
    let ghost s2 = string_views(cmd@);
    match &package.networking.internal_network {
        Some(n) => push_pair(&mut cmd, String::from_str("--network"), n.clone()),
        None => {},
    }
    assert(string_views(cmd@) =~= s2 + optional_args(
        "--network"@,
        p.networking.internal_network,
    ));
    push_port_args(&mut cmd, &package.networking.forward_ports);
    push_port_args(&mut cmd, &package.networking.expose_ports);
    push_volume_args(&mut cmd, &package.storage.volumes, volume_root.as_str());
    let ghost s3 = string_views(cmd@);
    if package.system.host_pid {
        push_pair(&mut cmd, String::from_str("--pid"), String::from_str("host"));
    }
    assert(string_views(cmd@) =~= s3 + flag_args(p.system.host_pid, seq!["--pid"@, "host"@]));
    let ghost s4 = string_views(cmd@);
    if package.system.host_net && package.networking.internal_network.is_none() {
        push_pair(&mut cmd, String::from_str("--network"), String::from_str("host"));
    }
    assert(string_views(cmd@) =~= s4 + flag_args(
        p.system.host_net && p.networking.internal_network is None,
        seq!["--network"@, "host"@],
    ));
    let ghost s5 = string_views(cmd@);
    if package.system.privileged {
        push_arg(&mut cmd, String::from_str("--privileged"));
    }
    assert(string_views(cmd@) =~= s5 + flag_args(p.system.privileged, seq!["--privileged"@]));
    push_capability_args(&mut cmd, &package.system.capabilities);
    push_pair(&mut cmd, String::from_str("-d"), image.clone());
    Ok(cmd)
}

fn hostfwd_text(p: (u16, u16)) -> (r: String)
    ensures
        r@ == hostfwd(p),
{
    String::from_str(",hostfwd=tcp:0.0.0.0:").concat(u64_text(p.0 as u64).as_str()).concat(
        "-:",
    ).concat(u64_text(p.1 as u64).as_str())
}

fn append_hostfwd_rules(out: &mut String, ps: &Vec<(u16, u16)>)
    ensures
        final(out)@ == old(out)@ + hostfwd_rules(ps@),
{
    let ghost start = out@;
    let mut i: usize = 0;
    assert(ps@.take(0) =~= Seq::<(u16, u16)>::empty());
    assert(start + hostfwd_rules(ps@.take(0)) =~= start);
    while i < ps.len()
        invariant
            i <= ps@.len(),
            out@ == start + hostfwd_rules(ps@.take(i as int)),
        decreases ps.len() - i,
    {
        assert(ps@.take(i + 1).drop_last() =~= ps@.take(i as int));
        assert(ps@.take(i + 1).last() == ps@[i as int]);
        let rule = hostfwd_text(ps[i]);
        out.append(rule.as_str());
        assert(out@ =~= start + hostfwd_rules(ps@.take(i + 1)));
        i = i + 1;
    }
    assert(ps@.take(ps@.len() as int) =~= ps@);
}

fn drive_text(file: String, index: u64) -> (r: String)
    ensures
        r@ == drive(file@, index as nat),
{
    String::from_str("driver=raw,if=virtio,file=").concat(file.as_str()).concat(
        ",cache=none,media=disk,index=",
    ).concat(u64_text(index).as_str())
}

fn find_reserved(vs: &Vec<CompiledVolume>) -> (r: Option<String>)
    ensures
        r matches Some(n) ==> first_reserved(volume_views(vs@)) == Some(n@),
        r is None ==> first_reserved(volume_views(vs@)) is None,
{
    let image = String::from_str(QEMU_IMAGE_FILENAME);
    let monitor = String::from_str(QEMU_MONITOR_FILENAME);
    let mut i: usize = 0;
    assert(volume_views(vs@).subrange(0, vs@.len() as int) =~= volume_views(vs@));
    while i < vs.len()
        invariant
            i <= vs@.len(),
            image@ == QEMU_IMAGE_FILENAME@,
            monitor@ == QEMU_MONITOR_FILENAME@,
            first_reserved(volume_views(vs@)) == first_reserved(
                volume_views(vs@).subrange(i as int, vs@.len() as int),
            ),
        decreases vs.len() - i,
    {
        let ghost rest = volume_views(vs@).subrange(i as int, vs@.len() as int);
        assert(rest.drop_first() =~= volume_views(vs@).subrange(i + 1, vs@.len() as int));
        assert(rest[0] == vs@[i as int]@);
        if vs[i].name == image || vs[i].name == monitor {
            return Some(vs[i].name.clone());
        }
        i = i + 1;
    }
    None
}

fn push_drive_args(cmd: &mut Vec<String>, vs: &Vec<CompiledVolume>, root: &str)
    ensures
        string_views(final(cmd)@) == string_views(old(cmd)@) + drive_args(
            volume_views(vs@),
            root@,
        ),
{
    let ghost start = string_views(cmd@);
    let mut i: usize = 0;
    assert(volume_views(vs@.take(0)) =~= Seq::<VolumeView>::empty());
    assert(start + drive_args(volume_views(vs@.take(0)), root@) =~= start);
    while i < vs.len()
        invariant
            i <= vs@.len(),
            string_views(cmd@) == start + drive_args(volume_views(vs@.take(i as int)), root@),
        decreases vs.len() - i,
    {
        let ghost prefix = volume_views(vs@.take(i + 1));
        assert(prefix.drop_last() =~= volume_views(vs@.take(i as int)));
        assert(prefix.last() == vs@[i as int]@);
        let file = join_path_text(root, vs[i].name.as_str());
        push_pair(cmd, String::from_str("-drive"), drive_text(file, i as u64 + 1));
        assert(string_views(cmd@) =~= start + drive_args(prefix, root@));
        i = i + 1;
    }
    assert(vs@.take(vs@.len() as int) =~= vs@);
}

/// The hypervisor's command line for the package. Fails, before any drive is
/// written, when a volume is named like the image file or the monitor socket.
pub fn generate_vm_command(package: &CompiledPackage, volume_root: &String) -> (r: Result<
    Vec<String>,
    Error,
>)
    ensures
        yields_args(r, vm_command(package@, volume_root@)),
{
    let ghost p = package@;
    let root = volume_root.as_str();
    match find_reserved(&package.storage.volumes) {
        Some(name) => return Err(Error::ReservedName(name)),
        None => {},
    }
    let mut nic = String::from_str("user");
    append_hostfwd_rules(&mut nic, &package.networking.forward_ports);
    append_hostfwd_rules(&mut nic, &package.networking.expose_ports);
    let cpus = u64_text(package.resources.cpus);
    let smp_text = String::from_str("cpus=").concat(cpus.as_str()).concat(",cores=").concat(
        cpus.as_str(),
    ).concat(",maxcpus=").concat(cpus.as_str());
    let mut cmd: Vec<String> = Vec::new();
    push_arg(&mut cmd, String::from_str(QEMU_COMMAND));
    push_arg(&mut cmd, String::from_str("-nodefaults"));
    push_arg(&mut cmd, String::from_str("-chardev"));
    push_arg(
        &mut cmd,
        String::from_str("socket,server=on,wait=off,id=char0,path=").concat(
            join_path_text(root, QEMU_MONITOR_FILENAME).as_str(),
        ),
    );
    push_arg(&mut cmd, String::from_str("-mon"));
    push_arg(&mut cmd, String::from_str("chardev=char0,mode=control,pretty=on"));
    push_arg(&mut cmd, String::from_str("-machine"));
    push_arg(&mut cmd, String::from_str("accel=kvm"));
    push_arg(&mut cmd, String::from_str("-vga"));
    push_arg(&mut cmd, String::from_str("none"));
    push_arg(&mut cmd, String::from_str("-m"));
    push_arg(&mut cmd, u64_text(package.resources.memory).concat("M"));
    push_arg(&mut cmd, String::from_str("-cpu"));
    push_arg(&mut cmd, String::from_str("max"));
    push_arg(&mut cmd, String::from_str("-smp"));
    push_arg(&mut cmd, smp_text);
    push_arg(&mut cmd, String::from_str("-nic"));
    push_arg(&mut cmd, nic);
    push_arg(&mut cmd, String::from_str("-drive"));
    push_arg(&mut cmd, drive_text(join_path_text(root, QEMU_IMAGE_FILENAME), 0));
    let ghost preamble = string_views(cmd@);
    assert(preamble =~= vm_args(p, volume_root@).take(20));
    push_drive_args(&mut cmd, &package.storage.volumes, root);
    assert(string_views(cmd@) =~= vm_args(p, volume_root@));
    Ok(cmd)
}

/// The command line for the package's backend: the hypervisor for a URL
/// source, the container runtime for a container source.
pub fn generate_command(package: CompiledPackage, volume_root: String) -> (r: Result<
    Vec<String>,
    Error,
>)
    ensures
        yields_args(r, command_spec(package@, volume_root@)),
{
    match package.source {
        CompiledSource::URL(_) => generate_vm_command(&package, &volume_root),
        CompiledSource::Container(_) => generate_container_command(&package, &volume_root),
    }
}

/// Any package with a volume named like the image file or the monitor socket
/// fails to synthesise for the hypervisor, so no drive is ever written for it.
pub proof fn lemma_reserved_volume_fails(p: PackageView, root: Seq<char>, i: int)
    requires
        0 <= i < p.storage.volumes.len(),
        is_reserved(p.storage.volumes[i].name),
    ensures
        vm_command(p, root) is Err,
        p.source is URL ==> command_spec(p, root) is Err,
{
    lemma_first_reserved_found(p.storage.volumes, i);
}

proof fn lemma_first_reserved_found(vs: Seq<VolumeView>, i: int)
    requires
        0 <= i < vs.len(),
        is_reserved(vs[i].name),
    ensures
        first_reserved(vs) is Some,
    decreases vs.len(),
{
    if i > 0 && !is_reserved(vs[0].name) {
        assert(vs.drop_first()[i - 1] == vs[i]);
        lemma_first_reserved_found(vs.drop_first(), i - 1);
    }
}

/// What to say to a virtual machine's monitor: the socket to connect to, the
/// commands to send in order once connected, and the error to report when
/// nothing answers there.
#[derive(Debug)]
pub struct MonitorSession {
    pub socket: String,
    pub commands: Vec<String>,
    pub unreachable: Error,
}

pub const MONITOR_HANDSHAKE: &'static str = "qmp_capabilities";

pub const NOT_MONITORED: &'static str = " is not running or not monitored";

/// The monitor socket under the volume root.
pub open spec fn monitor_socket(root: Seq<char>) -> Seq<char> {
    join_path(root, QEMU_MONITOR_FILENAME@)
}

pub open spec fn session_for(
    r: MonitorSession,
    package: PackageView,
    root: Seq<char>,
    commands: Seq<Seq<char>>,
) -> bool {
    &&& r.socket@ == monitor_socket(root)
    &&& string_views(r.commands@) == seq![MONITOR_HANDSHAKE@] + commands
    &&& r.unreachable@ == Fault::NotFound(title_text(package.title) + NOT_MONITORED@)
}

fn monitor_session(package: &CompiledPackage, volume_root: &String, command: Option<&str>) -> (r:
    MonitorSession)
    ensures
        session_for(
            r,
            package@,
            volume_root@,
            match command {
                Some(c) => seq![c@],
                None => Seq::empty(),
            },
        ),
{
    let mut commands: Vec<String> = Vec::new();
    push_arg(&mut commands, String::from_str(MONITOR_HANDSHAKE));
    match command {
        Some(c) => push_arg(&mut commands, String::from_str(c)),
        None => {},
    }
    assert(string_views(commands@) =~= seq![MONITOR_HANDSHAKE@] + match command {
        Some(c) => seq![c@],
        None => Seq::<Seq<char>>::empty(),
    });
    MonitorSession {
        socket: join_path_text(volume_root.as_str(), QEMU_MONITOR_FILENAME),
        commands,
        unreachable: Error::NotFound(package.title.to_string().concat(NOT_MONITORED)),
    }
}

/// Checks that the virtual machine answers on its monitor.
pub fn vm_ping(package: &CompiledPackage, volume_root: &String) -> (r: MonitorSession)
    ensures
        session_for(r, package@, volume_root@, Seq::empty()),
{
    monitor_session(package, volume_root, None)
}

/// Asks the virtual machine to power down.
pub fn vm_shutdown(package: &CompiledPackage, volume_root: &String) -> (r: MonitorSession)
    ensures
        session_for(r, package@, volume_root@, seq!["system_powerdown"@]),
{
    monitor_session(package, volume_root, Some("system_powerdown"))
}

/// Stops the virtual machine at once.
pub fn vm_quit(package: &CompiledPackage, volume_root: &String) -> (r: MonitorSession)
    ensures
        session_for(r, package@, volume_root@, seq!["quit"@]),
{
    monitor_session(package, volume_root, Some("quit"))
}

pub const URL_SOURCE_REQUIRED: &'static str = "source is not a URL; cannot run container images in qemu";

/// Where to fetch a virtual machine's image from and where to store it.
#[derive(Debug)]
pub struct ImageDownload {
    pub url: String,
    pub path: String,
}

/// The download that provides a virtual machine's disk image: from the
/// package's URL to the image file under the volume root.
pub fn vm_image_download(package: &CompiledPackage, volume_root: &String) -> (r: Result<
    ImageDownload,
    Error,
>)
    ensures
        match package@.source {
            SourceView::URL(u) => r matches Ok(d) && d.url@ == u && d.path@ == join_path(
                volume_root@,
                QEMU_IMAGE_FILENAME@,
            ),
            SourceView::Container(_) => r matches Err(e) && e@ == Fault::BackendMismatch(
                URL_SOURCE_REQUIRED@,
            ),
        },
{
    match &package.source {
        CompiledSource::URL(u) => Ok(
            ImageDownload {
                url: u.clone(),
                path: join_path_text(volume_root.as_str(), QEMU_IMAGE_FILENAME),
            },
        ),
        CompiledSource::Container(_) => Err(
            Error::BackendMismatch(String::from_str(URL_SOURCE_REQUIRED)),
        ),
    }
}

} // verus!
