//! The command catalog: an ordered, fixed list of command descriptors, the
//! declarative heart of the collector.  Entries are constructed once and
//! never mutated; order matters, because some entries intentionally share a
//! resolved executable name and order determines report and audit order.
//! `catalog_spec` states the whole catalog at the specification level, and
//! `catalog()` is proved to build exactly it.

use vstd::prelude::*;

verus! {

/// A named boolean configuration flag that, when it resolves to `"true"`,
/// unconditionally prevents the entries that reference it from running.
#[derive(Clone, Copy)]
pub enum SkipFlag {
    /// Disables the periodic statistics sampler entry.
    SkipStat,
    /// Disables the privileged `sudo -l` probe entry.
    SkipSudo,
    /// Disables every entry that collects from the secondary product.
    SkipDse,
    /// Disables the one entry that queries the synchronization rate.
    NoNodesyncrate,
}

/// Mathematical view of a command descriptor.
pub ghost struct CmdView {
    pub command: Seq<char>,
    pub args: Seq<char>,
    pub file: Seq<char>,
    pub optional: bool,
    pub skip_flags: Seq<SkipFlag>,
    pub use_stdout: bool,
    pub use_sudo: bool,
    pub use_timeout: bool,
}

impl CmdView {
    /// Privilege escalation without a declared output file is a
    /// configuration error, caught at the point of invocation.
    pub open spec fn wf(self) -> bool {
        self.use_sudo ==> self.file.len() > 0
    }
}

/// One catalog entry: a diagnostic command to attempt, its argument
/// template, where its output goes, and its run policy.
pub struct Cmd {
    /// Executable-name template (`{base_dir}` and `{dse_bin_dir}` tokens).
    pub command: String,
    /// Argument-string template, split on whitespace after substitution.
    pub args: String,
    /// Output file path relative to the artifact directory; empty when the
    /// command writes no capture file.
    pub file: String,
    /// When false, a failure of this entry is fatal to the whole run.
    pub optional: bool,
    /// Flags any of which, resolving to `"true"`, skip the entry.
    pub skip_flags: Vec<SkipFlag>,
    /// Capture standard output when true, standard error otherwise.
    pub use_stdout: bool,
    /// Wrap the invocation with privilege escalation.
    pub use_sudo: bool,
    /// Wrap the invocation with the external timeout utility.
    pub use_timeout: bool,
}

impl View for Cmd {
    type V = CmdView;

    open spec fn view(&self) -> CmdView {
        CmdView {
            command: self.command@,
            args: self.args@,
            file: self.file@,
            optional: self.optional,
            skip_flags: self.skip_flags@,
            use_stdout: self.use_stdout,
            use_sudo: self.use_sudo,
            use_timeout: self.use_timeout,
        }
    }
}

impl Cmd {
    /// Runtime check of the descriptor invariant `wf`.
    pub fn is_well_formed(&self) -> (r: bool)
        ensures
            r == self@.wf(),
    {
        !self.use_sudo || self.file.as_str().unicode_len() > 0
    }
}

/// The views of a catalog.
pub open spec fn catalog_views(cs: Seq<Cmd>) -> Seq<CmdView> {
    cs.map_values(|c: Cmd| c@)
}

fn no_flags() -> (v: Vec<SkipFlag>)
    ensures
        v@ == Seq::<SkipFlag>::empty(),
{
    let v: Vec<SkipFlag> = Vec::new();
    proof {
        assert(v@ =~= Seq::<SkipFlag>::empty());
    }
    v
}

fn one_flag(f: SkipFlag) -> (v: Vec<SkipFlag>)
    ensures
        v@ == seq![f],
{
    let mut v: Vec<SkipFlag> = Vec::new();
    v.push(f);
    proof {
        assert(v@ =~= seq![f]);
    }
    v
}

fn two_flags(f: SkipFlag, g: SkipFlag) -> (v: Vec<SkipFlag>)
    ensures
        v@ == seq![f, g],
{
    let mut v: Vec<SkipFlag> = Vec::new();
    v.push(f);
    v.push(g);
    proof {
        assert(v@ =~= seq![f, g]);
    }
    v
}

fn cmd_entry(
    command: &str,
    args: &str,
    file: &str,
    optional: bool,
    skip_flags: Vec<SkipFlag>,
    use_stdout: bool,
    use_sudo: bool,
    use_timeout: bool,
) -> (c: Cmd)
    ensures
        c@ == (CmdView {
            command: command@,
            args: args@,
            file: file@,
            optional,
            skip_flags: skip_flags@,
            use_stdout,
            use_sudo,
            use_timeout,
        }),
{
    Cmd {
        command: String::from_str(command),
        args: String::from_str(args),
        file: String::from_str(file),
        optional,
        skip_flags,
        use_stdout,
        use_sudo,
        use_timeout,
    }
}

/// The descriptor at position `k` of the catalog.
pub open spec fn catalog_entry_spec(k: int) -> CmdView {
    if k == 0 {
        CmdView {
            command: "cqlsh"@,
            args: "{cqlsh_host} {cqlsh_opts} -f {artifact_dir}/execute_schema.cql"@,
            file: "schema.cql"@,
            optional: false,
            skip_flags: Seq::empty(),
            use_stdout: true,
            use_sudo: false,
            use_timeout: false,
        }
    } else if k == 1 {
        CmdView {
            command: "cqlsh"@,
            args: "{cqlsh_host} {cqlsh_opts} -f {artifact_dir}/execute_metadata.cql"@,
            file: "driver/metadata.txt"@,
            optional: true,
            skip_flags: Seq::empty(),
            use_stdout: true,
            use_sudo: false,
            use_timeout: false,
        }
    } else if k == 2 {
        CmdView {
            command: "java"@,
            args: "-cp {prometheus_jar} io.prometheus.jmx.JmxScraper service:jmx:rmi:///jndi/rmi://127.0.0.1:{jmx_port}/jmxrmi {jmx_username} {jmx_password}"@,
            file: "metrics.jmx"@,
            optional: false,
            skip_flags: Seq::empty(),
            use_stdout: true,
            use_sudo: false,
            use_timeout: false,
        }
    } else if k == 3 {
        CmdView {
            command: "uname"@,
            args: "-a"@,
            file: "os/uname.txt"@,
            optional: true,
            skip_flags: Seq::empty(),
            use_stdout: true,
            use_sudo: false,
            use_timeout: false,
        }
    } else if k == 4 {
        CmdView {
            command: "sar"@,
            args: "-B"@,
            file: "os/sar.txt"@,
            optional: true,
            skip_flags: Seq::empty(),
            use_stdout: true,
            use_sudo: false,
            use_timeout: false,
        }
    } else if k == 5 {
        CmdView {
            command: "lsblk"@,
            args: ""@,
            file: "os/lsblk.txt"@,
            optional: true,
            skip_flags: Seq::empty(),
            use_stdout: true,
            use_sudo: false,
            use_timeout: false,
        }
    } else if k == 6 {
        CmdView {
            command: "lsblk"@,
            args: "-oname,kname,fstype,mountpoint,label,ra,model,size,rota"@,
            file: "os/lsblk_custom.txt"@,
            optional: true,
            skip_flags: Seq::empty(),
            use_stdout: true,
            use_sudo: false,
            use_timeout: false,
        }
    } else if k == 7 {
        CmdView {
            command: "lspci"@,
            args: ""@,
            file: "os/lspci.txt"@,
            optional: true,
            skip_flags: Seq::empty(),
            use_stdout: true,
            use_sudo: false,
            use_timeout: false,
        }
    } else if k == 8 {
        CmdView {
            command: "hostname"@,
            args: "-f"@,
            file: "os/hostname.txt"@,
            optional: true,
            skip_flags: Seq::empty(),
            use_stdout: true,
            use_sudo: false,
            use_timeout: false,
        }
    } else if k == 9 {
        CmdView {
            command: "ps"@,
            args: "auxww"@,
            file: "os/ps-aux.txt"@,
            optional: true,
            skip_flags: Seq::empty(),
            use_stdout: true,
            use_sudo: false,
            use_timeout: false,
        }
    } else if k == 10 {
        CmdView {
            command: "uptime"@,
            args: ""@,
            file: "os/uptime.txt"@,
            optional: true,
            skip_flags: Seq::empty(),
            use_stdout: true,
            use_sudo: false,
            use_timeout: false,
        }
    } else if k == 11 {
        CmdView {
            command: "date"@,
            args: ""@,
            file: "os/date.txt"@,
            optional: true,
            skip_flags: Seq::empty(),
            use_stdout: true,
            use_sudo: false,
            use_timeout: false,
        }
    } else if k == 12 {
        CmdView {
            command: "ifconfig"@,
            args: ""@,
            file: "os/ifconfig.txt"@,
            optional: true,
            skip_flags: Seq::empty(),
            use_stdout: true,
            use_sudo: false,
            use_timeout: false,
        }
    } else if k == 13 {
        CmdView {
            command: "lscpu"@,
            args: ""@,
            file: "os/lscpu.txt"@,
            optional: true,
            skip_flags: Seq::empty(),
            use_stdout: true,
            use_sudo: false,
            use_timeout: false,
        }
    } else if k == 14 {
        CmdView {
            command: "ss"@,
            args: "-at"@,
            file: "os/ss.txt"@,
            optional: true,
            skip_flags: Seq::empty(),
            use_stdout: true,
            use_sudo: false,
            use_timeout: false,
        }
    } else if k == 15 {
        CmdView {
            command: "top"@,
            args: "-n 10 -b -d 1"@,
            file: "os/top.txt"@,
            optional: true,
            skip_flags: Seq::empty(),
            use_stdout: true,
            use_sudo: false,
            use_timeout: false,
        }
    } else if k == 16 {
        CmdView {
            command: "vmstat"@,
            args: "2 30"@,
            file: "os/vmstat.txt"@,
            optional: true,
            skip_flags: seq![SkipFlag::SkipStat],
            use_stdout: true,
            use_sudo: false,
            use_timeout: false,
        }
    } else if k == 17 {
        CmdView {
            command: "env"@,
            args: ""@,
            file: "os/env.txt"@,
            optional: true,
            skip_flags: Seq::empty(),
            use_stdout: true,
            use_sudo: false,
            use_timeout: false,
        }
    } else if k == 18 {
        CmdView {
            command: "java"@,
            args: "-version"@,
            file: "os/java-version.txt"@,
            optional: false,
            skip_flags: Seq::empty(),
            use_stdout: false,
            use_sudo: false,
            use_timeout: false,
        }
    } else if k == 19 {
        CmdView {
            command: "sudo"@,
            args: "-l"@,
            file: "os/sudo-l.txt"@,
            optional: true,
            skip_flags: seq![SkipFlag::SkipSudo],
            use_stdout: true,
            use_sudo: false,
            use_timeout: false,
        }
    } else if k == 20 {
        CmdView {
            command: "cat"@,
            args: "/sys/kernel/mm/transparent_hugepage/enabled"@,
            file: "os/transparent_hugepage-enabled.txt"@,
            optional: true,
            skip_flags: Seq::empty(),
            use_stdout: true,
            use_sudo: false,
            use_timeout: false,
        }
    } else if k == 21 {
        CmdView {
            command: "cat"@,
            args: "/sys/kernel/mm/transparent_hugepage/defrag"@,
            file: "os/transparent_hugepage-defrag.txt"@,
            optional: true,
            skip_flags: Seq::empty(),
            use_stdout: true,
            use_sudo: false,
            use_timeout: false,
        }
    } else if k == 22 {
        CmdView {
            command: "numactl"@,
            args: "--hardware"@,
            file: "os/numactl-hardware.txt"@,
            optional: true,
            skip_flags: Seq::empty(),
            use_stdout: true,
            use_sudo: false,
            use_timeout: false,
        }
    } else if k == 23 {
        CmdView {
            command: "cp"@,
            args: "-r /proc/cpuinfo /proc/meminfo /proc/interrupts /proc/version /etc/fstab /etc/security/limits.conf {artifact_dir}/os/"@,
            file: ""@,
            optional: true,
            skip_flags: Seq::empty(),
            use_stdout: true,
            use_sudo: false,
            use_timeout: false,
        }
    } else if k == 24 {
        CmdView {
            command: "cp"@,
            args: "-r /etc/security/limits.d {artifact_dir}/os/"@,
            file: ""@,
            optional: true,
            skip_flags: Seq::empty(),
            use_stdout: true,
            use_sudo: false,
            use_timeout: false,
        }
    } else if k == 25 {
        CmdView {
            command: "find"@,
            args: "/etc/ -name *-release -exec cat {} +"@,
            file: "os/os.txt"@,
            optional: true,
            skip_flags: Seq::empty(),
            use_stdout: true,
            use_sudo: false,
            use_timeout: false,
        }
    } else if k == 26 {
        CmdView {
            command: "curl"@,
            args: "--connect-timeout 10 -s http://169.254.169.254/latest/meta-data/instance-type"@,
            file: "cloud/instance_type.txt"@,
            optional: true,
            skip_flags: Seq::empty(),
            use_stdout: true,
            use_sudo: true,
            use_timeout: false,
        }
    } else if k == 27 {
        CmdView {
            command: "curl"@,
            args: "--connect-timeout 10 -s http://169.254.169.254/latest/meta-data/placement/availability-zone"@,
            file: "cloud/az_info.txt"@,
            optional: true,
            skip_flags: Seq::empty(),
            use_stdout: true,
            use_sudo: true,
            use_timeout: false,
        }
    } else if k == 28 {
        CmdView {
            command: "ec2metadata"@,
            args: ""@,
            file: "cloud/aws-metadata.txt"@,
            optional: true,
            skip_flags: Seq::empty(),
            use_stdout: true,
            use_sudo: true,
            use_timeout: false,
        }
    } else if k == 29 {
        CmdView {
            command: "curl"@,
            args: "--connect-timeout 10 -s http://metadata.google.internal/computeMetadata/v1/instance/"@,
            file: "cloud/google.txt"@,
            optional: true,
            skip_flags: Seq::empty(),
            use_stdout: true,
            use_sudo: true,
            use_timeout: false,
        }
    } else if k == 30 {
        CmdView {
            command: "slabtop"@,
            args: "-o -s c"@,
            file: "os/slaptop.txt"@,
            optional: true,
            skip_flags: Seq::empty(),
            use_stdout: true,
            use_sudo: true,
            use_timeout: false,
        }
    } else if k == 31 {
        CmdView {
            command: "sysctl"@,
            args: "-a"@,
            file: "os/sysctl.txt"@,
            optional: true,
            skip_flags: Seq::empty(),
            use_stdout: true,
            use_sudo: true,
            use_timeout: false,
        }
    } else if k == 32 {
        CmdView {
            command: "blockdev"@,
            args: "--report"@,
            file: "os/blockdev-report.txt"@,
            optional: true,
            skip_flags: Seq::empty(),
            use_stdout: true,
            use_sudo: true,
            use_timeout: false,
        }
    } else if k == 33 {
        CmdView {
            command: "lsof"@,
            args: "-i -P"@,
            file: "os/lsof-cassandra.txt"@,
            optional: true,
            skip_flags: Seq::empty(),
            use_stdout: true,
            use_sudo: true,
            use_timeout: false,
        }
    } else if k == 34 {
        CmdView {
            command: "netstat"@,
            args: "-nr"@,
            file: "os/netstat-nr.txt"@,
            optional: true,
            skip_flags: Seq::empty(),
            use_stdout: true,
            use_sudo: true,
            use_timeout: false,
        }
    } else if k == 35 {
        CmdView {
            command: "netstat"@,
            args: "-lptu"@,
            file: "os/netstat-lptu.txt"@,
            optional: true,
            skip_flags: Seq::empty(),
            use_stdout: true,
            use_sudo: true,
            use_timeout: false,
        }
    } else if k == 36 {
        CmdView {
            command: "netstat"@,
            args: "-tulpn"@,
            file: "os/netstat-tulpn.txt"@,
            optional: true,
            skip_flags: Seq::empty(),
            use_stdout: true,
            use_sudo: true,
            use_timeout: false,
        }
    } else if k == 37 {
        CmdView {
            command: "cp"@,
            args: "-R -L {log_home} {artifact_dir}/logs"@,
            file: ""@,
            optional: false,
            skip_flags: Seq::empty(),
            use_stdout: true,
            use_sudo: false,
            use_timeout: false,
        }
    } else if k == 38 {
        CmdView {
            command: "cp"@,
            args: "-R -L {config_home} {artifact_dir}/conf"@,
            file: ""@,
            optional: false,
            skip_flags: Seq::empty(),
            use_stdout: true,
            use_sudo: false,
            use_timeout: false,
        }
    } else if k == 39 {
        CmdView {
            command: "netstat"@,
            args: "--statistics"@,
            file: "network/netstat-summary.txt"@,
            optional: true,
            skip_flags: Seq::empty(),
            use_stdout: true,
            use_sudo: false,
            use_timeout: false,
        }
    } else if k == 40 {
        CmdView {
            command: "ntpstat"@,
            args: ""@,
            file: "network/ntpstat.txt"@,
            optional: true,
            skip_flags: Seq::empty(),
            use_stdout: true,
            use_sudo: false,
            use_timeout: false,
        }
    } else if k == 41 {
        CmdView {
            command: "ntpq"@,
            args: "-p"@,
            file: "network/ntpq-p.txt"@,
            optional: true,
            skip_flags: Seq::empty(),
            use_stdout: true,
            use_sudo: false,
            use_timeout: false,
        }
    } else if k == 42 {
        CmdView {
            command: "ifconfig"@,
            args: ""@,
            file: "network/ifconfig.txt"@,
            optional: true,
            skip_flags: Seq::empty(),
            use_stdout: true,
            use_sudo: false,
            use_timeout: false,
        }
    } else if k == 43 {
        CmdView {
            command: "df"@,
            args: "-h"@,
            file: "storage/df-size.txt"@,
            optional: true,
            skip_flags: Seq::empty(),
            use_stdout: true,
            use_sudo: false,
            use_timeout: false,
        }
    } else if k == 44 {
        CmdView {
            command: "df"@,
            args: "-i"@,
            file: "storage/df-inode.txt"@,
            optional: true,
            skip_flags: Seq::empty(),
            use_stdout: true,
            use_sudo: false,
            use_timeout: false,
        }
    } else if k == 45 {
        CmdView {
            command: "iostat"@,
            args: "-dmx 5 24 "@,
            file: "storage/iostat-dmx.txt"@,
            optional: true,
            skip_flags: Seq::empty(),
            use_stdout: true,
            use_sudo: true,
            use_timeout: false,
        }
    } else if k == 46 {
        CmdView {
            command: "{base_dir}/dstat"@,
            args: "-am --output {artifact_dir}/storage/dstat.txt 1 60"@,
            file: ""@,
            optional: true,
            skip_flags: Seq::empty(),
            use_stdout: true,
            use_sudo: false,
            use_timeout: false,
        }
    } else if k == 47 {
        CmdView {
            command: "pvdisplay"@,
            args: ""@,
            file: "storage/pvdisplay.txt"@,
            optional: true,
            skip_flags: Seq::empty(),
            use_stdout: true,
            use_sudo: true,
            use_timeout: false,
        }
    } else if k == 48 {
        CmdView {
            command: "vgdisplay"@,
            args: ""@,
            file: "storage/vgdisplay.txt"@,
            optional: true,
            skip_flags: Seq::empty(),
            use_stdout: true,
            use_sudo: true,
            use_timeout: false,
        }
    } else if k == 49 {
        CmdView {
            command: "lvdisplay"@,
            args: "-a"@,
            file: "storage/lvdisplay.txt"@,
            optional: true,
            skip_flags: Seq::empty(),
            use_stdout: true,
            use_sudo: true,
            use_timeout: false,
        }
    } else if k == 50 {
        CmdView {
            command: "lvs"@,
            args: "-a"@,
            file: "storage/lvs.txt"@,
            optional: true,
            skip_flags: Seq::empty(),
            use_stdout: true,
            use_sudo: true,
            use_timeout: false,
        }
    } else if k == 51 {
        CmdView {
            command: "jcmd"@,
            args: "{cassandra_pid} VM.system_properties"@,
            file: "java_system_properties.txt"@,
            optional: true,
            skip_flags: Seq::empty(),
            use_stdout: true,
            use_sudo: true,
            use_timeout: false,
        }
    } else if k == 52 {
        CmdView {
            command: "jcmd"@,
            args: "{cassandra_pid} VM.command_line"@,
            file: "java_command_line.txt"@,
            optional: true,
            skip_flags: Seq::empty(),
            use_stdout: true,
            use_sudo: true,
            use_timeout: false,
        }
    } else if k == 53 {
        CmdView {
            command: "nodetool"@,
            args: "{nodetool_host} -p {jmx_port} {nodetool_credentials} status"@,
            file: "nodetool/status.txt"@,
            optional: true,
            skip_flags: Seq::empty(),
            use_stdout: true,
            use_sudo: false,
            use_timeout: true,
        }
    } else if k == 54 {
        CmdView {
            command: "nodetool"@,
            args: "{nodetool_host} -p {jmx_port} {nodetool_credentials} tpstats"@,
            file: "nodetool/tpstats.txt"@,
            optional: true,
            skip_flags: Seq::empty(),
            use_stdout: true,
            use_sudo: false,
            use_timeout: true,
        }
    } else if k == 55 {
        CmdView {
            command: "nodetool"@,
            args: "{nodetool_host} -p {jmx_port} {nodetool_credentials} cfstats"@,
            file: "nodetool/cfstats.txt"@,
            optional: true,
            skip_flags: Seq::empty(),
            use_stdout: true,
            use_sudo: false,
            use_timeout: true,
        }
    } else if k == 56 {
        CmdView {
            command: "nodetool"@,
            args: "{nodetool_host} -p {jmx_port} {nodetool_credentials} info"@,
            file: "nodetool/info.txt"@,
            optional: true,
            skip_flags: Seq::empty(),
            use_stdout: true,
            use_sudo: false,
            use_timeout: true,
        }
    } else if k == 57 {
        CmdView {
            command: "nodetool"@,
            args: "{nodetool_host} -p {jmx_port} {nodetool_credentials} ring"@,
            file: "nodetool/ring.txt"@,
            optional: true,
            skip_flags: Seq::empty(),
            use_stdout: true,
            use_sudo: false,
            use_timeout: true,
        }
    } else if k == 58 {
        CmdView {
            command: "nodetool"@,
            args: "{nodetool_host} -p {jmx_port} {nodetool_credentials} version"@,
            file: "nodetool/version.txt"@,
            optional: true,
            skip_flags: Seq::empty(),
            use_stdout: true,
            use_sudo: false,
            use_timeout: true,
        }
    } else if k == 59 {
        CmdView {
            command: "nodetool"@,
            args: "{nodetool_host} -p {jmx_port} {nodetool_credentials} proxyhistograms"@,
            file: "nodetool/proxyhistograms.txt"@,
            optional: true,
            skip_flags: Seq::empty(),
            use_stdout: true,
            use_sudo: false,
            use_timeout: true,
        }
    } else if k == 60 {
        CmdView {
            command: "nodetool"@,
            args: "{nodetool_host} -p {jmx_port} {nodetool_credentials} compactionstats"@,
            file: "nodetool/compactionstats.txt"@,
            optional: true,
            skip_flags: Seq::empty(),
            use_stdout: true,
            use_sudo: false,
            use_timeout: true,
        }
    } else if k == 61 {
        CmdView {
            command: "nodetool"@,
            args: "{nodetool_host} -p {jmx_port} {nodetool_credentials} describecluster"@,
            file: "nodetool/describecluster.txt"@,
            optional: true,
            skip_flags: Seq::empty(),
            use_stdout: true,
            use_sudo: false,
            use_timeout: true,
        }
    } else if k == 62 {
        CmdView {
            command: "nodetool"@,
            args: "{nodetool_host} -p {jmx_port} {nodetool_credentials} getcompactionthroughput"@,
            file: "nodetool/getcompactionthroughput.txt"@,
            optional: true,
            skip_flags: Seq::empty(),
            use_stdout: true,
            use_sudo: false,
            use_timeout: true,
        }
    } else if k == 63 {
        CmdView {
            command: "nodetool"@,
            args: "{nodetool_host} -p {jmx_port} {nodetool_credentials} getstreamthroughput"@,
            file: "nodetool/getstreamthroughput.txt"@,
            optional: true,
            skip_flags: Seq::empty(),
            use_stdout: true,
            use_sudo: false,
            use_timeout: true,
        }
    } else if k == 64 {
        CmdView {
            command: "nodetool"@,
            args: "{nodetool_host} -p {jmx_port} {nodetool_credentials} gossipinfo"@,
            file: "nodetool/gossipinfo.txt"@,
            optional: true,
            skip_flags: Seq::empty(),
            use_stdout: true,
            use_sudo: false,
            use_timeout: true,
        }
    } else if k == 65 {
        CmdView {
            command: "nodetool"@,
            args: "{nodetool_host} -p {jmx_port} {nodetool_credentials} netstats"@,
            file: "nodetool/netstats.txt"@,
            optional: true,
            skip_flags: Seq::empty(),
            use_stdout: true,
            use_sudo: false,
            use_timeout: true,
        }
    } else if k == 66 {
        CmdView {
            command: "nodetool"@,
            args: "{nodetool_host} -p {jmx_port} {nodetool_credentials} statusbinary"@,
            file: "nodetool/statusbinary.txt"@,
            optional: true,
            skip_flags: Seq::empty(),
            use_stdout: true,
            use_sudo: false,
            use_timeout: true,
        }
    } else if k == 67 {
        CmdView {
            command: "nodetool"@,
            args: "{nodetool_host} -p {jmx_port} {nodetool_credentials} statusthrift"@,
            file: "nodetool/statusthrift.txt"@,
            optional: true,
            skip_flags: Seq::empty(),
            use_stdout: true,
            use_sudo: false,
            use_timeout: true,
        }
    } else if k == 68 {
        CmdView {
            command: "find"@,
            args: "{data_dir} -maxdepth 3 -name *-Statistics.db -exec cp --parents {} {artifact_dir}/sstable-statistics/ ;"@,
            file: ""@,
            optional: true,
            skip_flags: Seq::empty(),
            use_stdout: true,
            use_sudo: false,
            use_timeout: false,
        }
    } else if k == 69 {
        CmdView {
            command: "cat"@,
            args: "{config_home}/dse.yaml"@,
            file: "conf/dse/dse.yaml"@,
            optional: true,
            skip_flags: seq![SkipFlag::SkipDse],
            use_stdout: true,
            use_sudo: true,
            use_timeout: false,
        }
    } else if k == 70 {
        CmdView {
            command: "cp"@,
            args: "-R -L /etc/default/dse {artifact_dir}/conf/dse/"@,
            file: ""@,
            optional: true,
            skip_flags: seq![SkipFlag::SkipDse],
            use_stdout: true,
            use_sudo: false,
            use_timeout: false,
        }
    } else if k == 71 {
        CmdView {
            command: "cat"@,
            args: "{log_home}/audit/dropped-events.log {artifact_dir}/"@,
            file: "logs/cassandra/audit/dropped-events.log"@,
            optional: true,
            skip_flags: seq![SkipFlag::SkipDse],
            use_stdout: true,
            use_sudo: true,
            use_timeout: false,
        }
    } else if k == 72 {
        CmdView {
            command: "{dse_bin_dir}dsetool"@,
            args: "{dt_opts} status"@,
            file: "dsetool/status.txt"@,
            optional: true,
            skip_flags: seq![SkipFlag::SkipDse],
            use_stdout: true,
            use_sudo: false,
            use_timeout: true,
        }
    } else if k == 73 {
        CmdView {
            command: "{dse_bin_dir}dsetool"@,
            args: "{dt_opts} ring"@,
            file: "dsetool/ring.txt"@,
            optional: true,
            skip_flags: seq![SkipFlag::SkipDse],
            use_stdout: true,
            use_sudo: false,
            use_timeout: true,
        }
    } else if k == 74 {
        CmdView {
            command: "{dse_bin_dir}dsetool"@,
            args: "{dt_opts} insights_config --show_config"@,
            file: "dsetool/insights_config.txt"@,
            optional: true,
            skip_flags: seq![SkipFlag::SkipDse],
            use_stdout: true,
            use_sudo: false,
            use_timeout: true,
        }
    } else if k == 75 {
        CmdView {
            command: "{dse_bin_dir}dsetool"@,
            args: "{dt_opts} insights_filters --show_filters"@,
            file: "dsetool/insights_filters.txt"@,
            optional: true,
            skip_flags: seq![SkipFlag::SkipDse],
            use_stdout: true,
            use_sudo: false,
            use_timeout: true,
        }
    } else if k == 76 {
        CmdView {
            command: "{dse_bin_dir}dsetool"@,
            args: "{dt_opts} perf cqlslowlog recent_slowest_queries"@,
            file: "dsetool/slowest_queries.txt"@,
            optional: true,
            skip_flags: seq![SkipFlag::SkipDse],
            use_stdout: true,
            use_sudo: false,
            use_timeout: true,
        }
    } else if k == 77 {
        CmdView {
            command: "{dse_bin_dir}nodetool"@,
            args: "{nodetool_host} -p {jmx_port} {nodetool_credentials} nodesyncservice getrate"@,
            file: "nodetool/nodesyncrate.txt"@,
            optional: true,
            skip_flags: seq![SkipFlag::SkipDse, SkipFlag::NoNodesyncrate],
            use_stdout: true,
            use_sudo: false,
            use_timeout: true,
        }
    } else {
        CmdView {
            command: "du"@,
            args: "-s -- {solr_data_dir}/"@,
            file: "solr/cores-sizes.txt"@,
            optional: true,
            skip_flags: seq![SkipFlag::SkipDse],
            use_stdout: true,
            use_sudo: false,
            use_timeout: true,
        }
    }
}

/// The whole fixed catalog, stated at the specification level: the ordered
/// sequence of all 79 command descriptors.
pub open spec fn catalog_spec() -> Seq<CmdView> {
    Seq::new(79, |k: int| catalog_entry_spec(k))
}

/// The fixed, ordered command catalog.  It builds exactly `catalog_spec`,
/// and every entry satisfies the descriptor invariant: privilege
/// escalation only with an output file.
pub fn catalog() -> (v: Vec<Cmd>)
    ensures
        v@.len() == 79,
        catalog_views(v@) == catalog_spec(),
        forall|k: int| 0 <= k < v@.len() ==> (#[trigger] v@[k])@.wf(),
{
    let mut v: Vec<Cmd> = Vec::new();
    v.push(cmd_entry("cqlsh", "{cqlsh_host} {cqlsh_opts} -f {artifact_dir}/execute_schema.cql", "schema.cql", false, no_flags(), true, false, false));
    v.push(cmd_entry("cqlsh", "{cqlsh_host} {cqlsh_opts} -f {artifact_dir}/execute_metadata.cql", "driver/metadata.txt", true, no_flags(), true, false, false));
    v.push(cmd_entry("java", "-cp {prometheus_jar} io.prometheus.jmx.JmxScraper service:jmx:rmi:///jndi/rmi://127.0.0.1:{jmx_port}/jmxrmi {jmx_username} {jmx_password}", "metrics.jmx", false, no_flags(), true, false, false));
    v.push(cmd_entry("uname", "-a", "os/uname.txt", true, no_flags(), true, false, false));
    v.push(cmd_entry("sar", "-B", "os/sar.txt", true, no_flags(), true, false, false));
    v.push(cmd_entry("lsblk", "", "os/lsblk.txt", true, no_flags(), true, false, false));
    v.push(cmd_entry("lsblk", "-oname,kname,fstype,mountpoint,label,ra,model,size,rota", "os/lsblk_custom.txt", true, no_flags(), true, false, false));
    v.push(cmd_entry("lspci", "", "os/lspci.txt", true, no_flags(), true, false, false));
    v.push(cmd_entry("hostname", "-f", "os/hostname.txt", true, no_flags(), true, false, false));
    v.push(cmd_entry("ps", "auxww", "os/ps-aux.txt", true, no_flags(), true, false, false));
    v.push(cmd_entry("uptime", "", "os/uptime.txt", true, no_flags(), true, false, false));
    v.push(cmd_entry("date", "", "os/date.txt", true, no_flags(), true, false, false));
    v.push(cmd_entry("ifconfig", "", "os/ifconfig.txt", true, no_flags(), true, false, false));
    v.push(cmd_entry("lscpu", "", "os/lscpu.txt", true, no_flags(), true, false, false));
    v.push(cmd_entry("ss", "-at", "os/ss.txt", true, no_flags(), true, false, false));
    v.push(cmd_entry("top", "-n 10 -b -d 1", "os/top.txt", true, no_flags(), true, false, false));
    v.push(cmd_entry("vmstat", "2 30", "os/vmstat.txt", true, one_flag(SkipFlag::SkipStat), true, false, false));
    v.push(cmd_entry("env", "", "os/env.txt", true, no_flags(), true, false, false));
    v.push(cmd_entry("java", "-version", "os/java-version.txt", false, no_flags(), false, false, false));
    v.push(cmd_entry("sudo", "-l", "os/sudo-l.txt", true, one_flag(SkipFlag::SkipSudo), true, false, false));
    v.push(cmd_entry("cat", "/sys/kernel/mm/transparent_hugepage/enabled", "os/transparent_hugepage-enabled.txt", true, no_flags(), true, false, false));
    v.push(cmd_entry("cat", "/sys/kernel/mm/transparent_hugepage/defrag", "os/transparent_hugepage-defrag.txt", true, no_flags(), true, false, false));
    v.push(cmd_entry("numactl", "--hardware", "os/numactl-hardware.txt", true, no_flags(), true, false, false));
    v.push(cmd_entry("cp", "-r /proc/cpuinfo /proc/meminfo /proc/interrupts /proc/version /etc/fstab /etc/security/limits.conf {artifact_dir}/os/", "", true, no_flags(), true, false, false));
    v.push(cmd_entry("cp", "-r /etc/security/limits.d {artifact_dir}/os/", "", true, no_flags(), true, false, false));
    v.push(cmd_entry("find", "/etc/ -name *-release -exec cat {} +", "os/os.txt", true, no_flags(), true, false, false));
    v.push(cmd_entry("curl", "--connect-timeout 10 -s http://169.254.169.254/latest/meta-data/instance-type", "cloud/instance_type.txt", true, no_flags(), true, true, false));
    v.push(cmd_entry("curl", "--connect-timeout 10 -s http://169.254.169.254/latest/meta-data/placement/availability-zone", "cloud/az_info.txt", true, no_flags(), true, true, false));
    v.push(cmd_entry("ec2metadata", "", "cloud/aws-metadata.txt", true, no_flags(), true, true, false));
    v.push(cmd_entry("curl", "--connect-timeout 10 -s http://metadata.google.internal/computeMetadata/v1/instance/", "cloud/google.txt", true, no_flags(), true, true, false));
    v.push(cmd_entry("slabtop", "-o -s c", "os/slaptop.txt", true, no_flags(), true, true, false));
    v.push(cmd_entry("sysctl", "-a", "os/sysctl.txt", true, no_flags(), true, true, false));
    v.push(cmd_entry("blockdev", "--report", "os/blockdev-report.txt", true, no_flags(), true, true, false));
    v.push(cmd_entry("lsof", "-i -P", "os/lsof-cassandra.txt", true, no_flags(), true, true, false));
    v.push(cmd_entry("netstat", "-nr", "os/netstat-nr.txt", true, no_flags(), true, true, false));
    v.push(cmd_entry("netstat", "-lptu", "os/netstat-lptu.txt", true, no_flags(), true, true, false));
    v.push(cmd_entry("netstat", "-tulpn", "os/netstat-tulpn.txt", true, no_flags(), true, true, false));
    v.push(cmd_entry("cp", "-R -L {log_home} {artifact_dir}/logs", "", false, no_flags(), true, false, false));
    v.push(cmd_entry("cp", "-R -L {config_home} {artifact_dir}/conf", "", false, no_flags(), true, false, false));
    v.push(cmd_entry("netstat", "--statistics", "network/netstat-summary.txt", true, no_flags(), true, false, false));
    v.push(cmd_entry("ntpstat", "", "network/ntpstat.txt", true, no_flags(), true, false, false));
    v.push(cmd_entry("ntpq", "-p", "network/ntpq-p.txt", true, no_flags(), true, false, false));
    v.push(cmd_entry("ifconfig", "", "network/ifconfig.txt", true, no_flags(), true, false, false));
    v.push(cmd_entry("df", "-h", "storage/df-size.txt", true, no_flags(), true, false, false));
    v.push(cmd_entry("df", "-i", "storage/df-inode.txt", true, no_flags(), true, false, false));
    v.push(cmd_entry("iostat", "-dmx 5 24 ", "storage/iostat-dmx.txt", true, no_flags(), true, true, false));
    v.push(cmd_entry("{base_dir}/dstat", "-am --output {artifact_dir}/storage/dstat.txt 1 60", "", true, no_flags(), true, false, false));
    v.push(cmd_entry("pvdisplay", "", "storage/pvdisplay.txt", true, no_flags(), true, true, false));
    v.push(cmd_entry("vgdisplay", "", "storage/vgdisplay.txt", true, no_flags(), true, true, false));
    v.push(cmd_entry("lvdisplay", "-a", "storage/lvdisplay.txt", true, no_flags(), true, true, false));
    v.push(cmd_entry("lvs", "-a", "storage/lvs.txt", true, no_flags(), true, true, false));
    v.push(cmd_entry("jcmd", "{cassandra_pid} VM.system_properties", "java_system_properties.txt", true, no_flags(), true, true, false));
    v.push(cmd_entry("jcmd", "{cassandra_pid} VM.command_line", "java_command_line.txt", true, no_flags(), true, true, false));
    v.push(cmd_entry("nodetool", "{nodetool_host} -p {jmx_port} {nodetool_credentials} status", "nodetool/status.txt", true, no_flags(), true, false, true));
    v.push(cmd_entry("nodetool", "{nodetool_host} -p {jmx_port} {nodetool_credentials} tpstats", "nodetool/tpstats.txt", true, no_flags(), true, false, true));
    v.push(cmd_entry("nodetool", "{nodetool_host} -p {jmx_port} {nodetool_credentials} cfstats", "nodetool/cfstats.txt", true, no_flags(), true, false, true));
    v.push(cmd_entry("nodetool", "{nodetool_host} -p {jmx_port} {nodetool_credentials} info", "nodetool/info.txt", true, no_flags(), true, false, true));
    v.push(cmd_entry("nodetool", "{nodetool_host} -p {jmx_port} {nodetool_credentials} ring", "nodetool/ring.txt", true, no_flags(), true, false, true));
    v.push(cmd_entry("nodetool", "{nodetool_host} -p {jmx_port} {nodetool_credentials} version", "nodetool/version.txt", true, no_flags(), true, false, true));
    v.push(cmd_entry("nodetool", "{nodetool_host} -p {jmx_port} {nodetool_credentials} proxyhistograms", "nodetool/proxyhistograms.txt", true, no_flags(), true, false, true));
    v.push(cmd_entry("nodetool", "{nodetool_host} -p {jmx_port} {nodetool_credentials} compactionstats", "nodetool/compactionstats.txt", true, no_flags(), true, false, true));
    v.push(cmd_entry("nodetool", "{nodetool_host} -p {jmx_port} {nodetool_credentials} describecluster", "nodetool/describecluster.txt", true, no_flags(), true, false, true));
    v.push(cmd_entry("nodetool", "{nodetool_host} -p {jmx_port} {nodetool_credentials} getcompactionthroughput", "nodetool/getcompactionthroughput.txt", true, no_flags(), true, false, true));
    v.push(cmd_entry("nodetool", "{nodetool_host} -p {jmx_port} {nodetool_credentials} getstreamthroughput", "nodetool/getstreamthroughput.txt", true, no_flags(), true, false, true));
    v.push(cmd_entry("nodetool", "{nodetool_host} -p {jmx_port} {nodetool_credentials} gossipinfo", "nodetool/gossipinfo.txt", true, no_flags(), true, false, true));
    v.push(cmd_entry("nodetool", "{nodetool_host} -p {jmx_port} {nodetool_credentials} netstats", "nodetool/netstats.txt", true, no_flags(), true, false, true));
    v.push(cmd_entry("nodetool", "{nodetool_host} -p {jmx_port} {nodetool_credentials} statusbinary", "nodetool/statusbinary.txt", true, no_flags(), true, false, true));
    v.push(cmd_entry("nodetool", "{nodetool_host} -p {jmx_port} {nodetool_credentials} statusthrift", "nodetool/statusthrift.txt", true, no_flags(), true, false, true));
    v.push(cmd_entry("find", "{data_dir} -maxdepth 3 -name *-Statistics.db -exec cp --parents {} {artifact_dir}/sstable-statistics/ ;", "", true, no_flags(), true, false, false));
    v.push(cmd_entry("cat", "{config_home}/dse.yaml", "conf/dse/dse.yaml", true, one_flag(SkipFlag::SkipDse), true, true, false));
    v.push(cmd_entry("cp", "-R -L /etc/default/dse {artifact_dir}/conf/dse/", "", true, one_flag(SkipFlag::SkipDse), true, false, false));
    v.push(cmd_entry("cat", "{log_home}/audit/dropped-events.log {artifact_dir}/", "logs/cassandra/audit/dropped-events.log", true, one_flag(SkipFlag::SkipDse), true, true, false));
    v.push(cmd_entry("{dse_bin_dir}dsetool", "{dt_opts} status", "dsetool/status.txt", true, one_flag(SkipFlag::SkipDse), true, false, true));
    v.push(cmd_entry("{dse_bin_dir}dsetool", "{dt_opts} ring", "dsetool/ring.txt", true, one_flag(SkipFlag::SkipDse), true, false, true));
    v.push(cmd_entry("{dse_bin_dir}dsetool", "{dt_opts} insights_config --show_config", "dsetool/insights_config.txt", true, one_flag(SkipFlag::SkipDse), true, false, true));
    v.push(cmd_entry("{dse_bin_dir}dsetool", "{dt_opts} insights_filters --show_filters", "dsetool/insights_filters.txt", true, one_flag(SkipFlag::SkipDse), true, false, true));
    v.push(cmd_entry("{dse_bin_dir}dsetool", "{dt_opts} perf cqlslowlog recent_slowest_queries", "dsetool/slowest_queries.txt", true, one_flag(SkipFlag::SkipDse), true, false, true));
    v.push(cmd_entry("{dse_bin_dir}nodetool", "{nodetool_host} -p {jmx_port} {nodetool_credentials} nodesyncservice getrate", "nodetool/nodesyncrate.txt", true, two_flags(SkipFlag::SkipDse, SkipFlag::NoNodesyncrate), true, false, true));
    v.push(cmd_entry("du", "-s -- {solr_data_dir}/", "solr/cores-sizes.txt", true, one_flag(SkipFlag::SkipDse), true, false, true));
    proof {
        reveal_strlit("cloud/aws-metadata.txt");
        reveal_strlit("cloud/az_info.txt");
        reveal_strlit("cloud/google.txt");
        reveal_strlit("cloud/instance_type.txt");
        reveal_strlit("conf/dse/dse.yaml");
        reveal_strlit("java_command_line.txt");
        reveal_strlit("java_system_properties.txt");
        reveal_strlit("logs/cassandra/audit/dropped-events.log");
        reveal_strlit("os/blockdev-report.txt");
        reveal_strlit("os/lsof-cassandra.txt");
        reveal_strlit("os/netstat-lptu.txt");
        reveal_strlit("os/netstat-nr.txt");
        reveal_strlit("os/netstat-tulpn.txt");
        reveal_strlit("os/slaptop.txt");
        reveal_strlit("os/sysctl.txt");
        reveal_strlit("storage/iostat-dmx.txt");
        reveal_strlit("storage/lvdisplay.txt");
        reveal_strlit("storage/lvs.txt");
        reveal_strlit("storage/pvdisplay.txt");
        reveal_strlit("storage/vgdisplay.txt");
        assert(catalog_views(v@) =~= catalog_spec());
    }
    v
}

} // verus!
