//! The configuration bundle: the resolved set of named parameters for one
//! collection run.  Two values are mandatory positional inputs (target
//! process id, artifact directory); every other value comes from an
//! optional named override with a fixed default.

use vstd::prelude::*;

verus! {

/// Mathematical view of the bundle: every parameter as a character sequence.
pub ghost struct BundleView {
    pub base_dir: Seq<char>,
    pub artifact_dir: Seq<char>,
    pub skip_sudo: Seq<char>,
    pub log_home: Seq<char>,
    pub config_home: Seq<char>,
    pub data_dir: Seq<char>,
    pub cassandra_pid: Seq<char>,
    pub prometheus_jar: Seq<char>,
    pub jmx_port: Seq<char>,
    pub jmx_username: Seq<char>,
    pub jmx_password: Seq<char>,
    pub nodetool_host: Seq<char>,
    pub nodetool_credentials: Seq<char>,
    pub cqlsh_host: Seq<char>,
    pub cqlsh_opts: Seq<char>,
    pub cqlsh_password: Seq<char>,
    pub timeout_opts: Seq<char>,
    pub dse_bin_dir: Seq<char>,
    pub dt_opts: Seq<char>,
    pub solr_data_dir: Seq<char>,
    pub skip_stat: Seq<char>,
    pub skip_dse: Seq<char>,
    pub no_nodesyncrate: Seq<char>,
}

/// The immutable configuration bundle, constructed once per run.
pub struct Options {
    pub base_dir: String,
    pub artifact_dir: String,
    pub skip_sudo: String,
    pub log_home: String,
    pub config_home: String,
    pub data_dir: String,
    pub cassandra_pid: String,
    pub prometheus_jar: String,
    pub jmx_port: String,
    pub jmx_username: String,
    pub jmx_password: String,
    pub nodetool_host: String,
    pub nodetool_credentials: String,
    pub cqlsh_host: String,
    pub cqlsh_opts: String,
    pub cqlsh_password: String,
    pub timeout_opts: String,
    pub dse_bin_dir: String,
    pub dt_opts: String,
    pub solr_data_dir: String,
    pub skip_stat: String,
    pub skip_dse: String,
    pub no_nodesyncrate: String,
}

impl View for Options {
    type V = BundleView;

    open spec fn view(&self) -> BundleView {
        BundleView {
            base_dir: self.base_dir@,
            artifact_dir: self.artifact_dir@,
            skip_sudo: self.skip_sudo@,
            log_home: self.log_home@,
            config_home: self.config_home@,
            data_dir: self.data_dir@,
            cassandra_pid: self.cassandra_pid@,
            prometheus_jar: self.prometheus_jar@,
            jmx_port: self.jmx_port@,
            jmx_username: self.jmx_username@,
            jmx_password: self.jmx_password@,
            nodetool_host: self.nodetool_host@,
            nodetool_credentials: self.nodetool_credentials@,
            cqlsh_host: self.cqlsh_host@,
            cqlsh_opts: self.cqlsh_opts@,
            cqlsh_password: self.cqlsh_password@,
            timeout_opts: self.timeout_opts@,
            dse_bin_dir: self.dse_bin_dir@,
            dt_opts: self.dt_opts@,
            solr_data_dir: self.solr_data_dir@,
            skip_stat: self.skip_stat@,
            skip_dse: self.skip_dse@,
            no_nodesyncrate: self.no_nodesyncrate@,
        }
    }
}

/// The named overrides, each `None` when the caller's environment does not
/// set it.
pub struct Overrides {
    pub base_dir: Option<String>,
    pub skip_sudo: Option<String>,
    pub log_home: Option<String>,
    pub config_home: Option<String>,
    pub data_dir: Option<String>,
    pub prometheus_jar: Option<String>,
    pub jmx_port: Option<String>,
    pub jmx_username: Option<String>,
    pub jmx_password: Option<String>,
    pub nodetool_host: Option<String>,
    pub nodetool_credentials: Option<String>,
    pub cqlsh_host: Option<String>,
    pub cqlsh_opts: Option<String>,
    pub cqlsh_password: Option<String>,
    pub timeout_opts: Option<String>,
    pub dse_bin_dir: Option<String>,
    pub dt_opts: Option<String>,
    pub solr_data_dir: Option<String>,
    pub skip_stat: Option<String>,
    pub skip_dse: Option<String>,
    pub no_nodesyncrate: Option<String>,
}

/// The override when present, the default otherwise.
pub open spec fn or_default_spec(v: Option<String>, d: Seq<char>) -> Seq<char> {
    match v {
        Option::Some(s) => s@,
        Option::None => d,
    }
}

/// Boolean configuration values are the case-sensitive literal "true";
/// everything else, the empty string included, counts as false.
pub open spec fn is_true(s: Seq<char>) -> bool {
    s == "true"@
}

fn or_default(v: Option<String>, d: &str) -> (r: String)
    ensures
        r@ == or_default_spec(v, d@),
{
    match v {
        Option::Some(s) => s,
        Option::None => String::from_str(d),
    }
}

impl Overrides {
    /// No override set: every parameter keeps its default.
    pub fn empty() -> (o: Overrides)
        ensures
            o.base_dir is None,
            o.skip_sudo is None,
            o.log_home is None,
            o.config_home is None,
            o.data_dir is None,
            o.prometheus_jar is None,
            o.jmx_port is None,
            o.jmx_username is None,
            o.jmx_password is None,
            o.nodetool_host is None,
            o.nodetool_credentials is None,
            o.cqlsh_host is None,
            o.cqlsh_opts is None,
            o.cqlsh_password is None,
            o.timeout_opts is None,
            o.dse_bin_dir is None,
            o.dt_opts is None,
            o.solr_data_dir is None,
            o.skip_stat is None,
            o.skip_dse is None,
            o.no_nodesyncrate is None,
    {
        Overrides {
            base_dir: Option::None,
            skip_sudo: Option::None,
            log_home: Option::None,
            config_home: Option::None,
            data_dir: Option::None,
            prometheus_jar: Option::None,
            jmx_port: Option::None,
            jmx_username: Option::None,
            jmx_password: Option::None,
            nodetool_host: Option::None,
            nodetool_credentials: Option::None,
            cqlsh_host: Option::None,
            cqlsh_opts: Option::None,
            cqlsh_password: Option::None,
            timeout_opts: Option::None,
            dse_bin_dir: Option::None,
            dt_opts: Option::None,
            solr_data_dir: Option::None,
            skip_stat: Option::None,
            skip_dse: Option::None,
            no_nodesyncrate: Option::None,
        }
    }
}

impl Options {
    /// Builds the bundle from the two mandatory positional inputs and the
    /// optional overrides; absent overrides take their fixed defaults.
    pub fn new(cassandra_pid: String, artifact_dir: String, ov: Overrides) -> (o: Options)
        ensures
            o@.cassandra_pid == cassandra_pid@,
            o@.artifact_dir == artifact_dir@,
            o@.base_dir == or_default_spec(ov.base_dir, "/tmp/datastax"@),
            o@.skip_sudo == or_default_spec(ov.skip_sudo, "false"@),
            o@.log_home == or_default_spec(ov.log_home, "/var/log/cassandra"@),
            o@.config_home == or_default_spec(ov.config_home, "/etc/cassandra"@),
            o@.data_dir == or_default_spec(ov.data_dir, ""@),
            o@.prometheus_jar == or_default_spec(ov.prometheus_jar, "none.jar"@),
            o@.jmx_port == or_default_spec(ov.jmx_port, "7199"@),
            o@.jmx_username == or_default_spec(ov.jmx_username, ""@),
            o@.jmx_password == or_default_spec(ov.jmx_password, ""@),
            o@.nodetool_host == or_default_spec(ov.nodetool_host, ""@),
            o@.nodetool_credentials == or_default_spec(ov.nodetool_credentials, ""@),
            o@.cqlsh_host == or_default_spec(ov.cqlsh_host, "localhost"@),
            o@.cqlsh_opts == or_default_spec(ov.cqlsh_opts, ""@),
            o@.cqlsh_password == or_default_spec(ov.cqlsh_password, ""@),
            o@.timeout_opts == or_default_spec(ov.timeout_opts, ""@),
            o@.dse_bin_dir == or_default_spec(ov.dse_bin_dir, ""@),
            o@.dt_opts == or_default_spec(ov.dt_opts, ""@),
            o@.solr_data_dir == or_default_spec(ov.solr_data_dir, ""@),
            o@.skip_stat == or_default_spec(ov.skip_stat, ""@),
            o@.skip_dse == or_default_spec(ov.skip_dse, ""@),
            o@.no_nodesyncrate == or_default_spec(ov.no_nodesyncrate, ""@),
    {
        Options {
            base_dir: or_default(ov.base_dir, "/tmp/datastax"),
            artifact_dir,
            skip_sudo: or_default(ov.skip_sudo, "false"),
            log_home: or_default(ov.log_home, "/var/log/cassandra"),
            config_home: or_default(ov.config_home, "/etc/cassandra"),
            data_dir: or_default(ov.data_dir, ""),
            cassandra_pid,
            prometheus_jar: or_default(ov.prometheus_jar, "none.jar"),
            jmx_port: or_default(ov.jmx_port, "7199"),
            jmx_username: or_default(ov.jmx_username, ""),
            jmx_password: or_default(ov.jmx_password, ""),
            nodetool_host: or_default(ov.nodetool_host, ""),
            nodetool_credentials: or_default(ov.nodetool_credentials, ""),
            cqlsh_host: or_default(ov.cqlsh_host, "localhost"),
            cqlsh_opts: or_default(ov.cqlsh_opts, ""),
            cqlsh_password: or_default(ov.cqlsh_password, ""),
            timeout_opts: or_default(ov.timeout_opts, ""),
            dse_bin_dir: or_default(ov.dse_bin_dir, ""),
            dt_opts: or_default(ov.dt_opts, ""),
            solr_data_dir: or_default(ov.solr_data_dir, ""),
            skip_stat: or_default(ov.skip_stat, ""),
            skip_dse: or_default(ov.skip_dse, ""),
            no_nodesyncrate: or_default(ov.no_nodesyncrate, ""),
        }
    }
}

} // verus!
