//! Template substitution: resolving `{placeholder}` tokens in a command or
//! argument template against the configuration bundle, with separate masked
//! and unmasked renderings for secret-bearing values.

use vstd::prelude::*;
use crate::catalog::CmdView;
use crate::config::BundleView;
use crate::config::Options;
use crate::text::occurs;
use crate::text::occurs_at;
use crate::text::replace_spec;
use crate::text::replace_str;
use crate::text::lemma_replace_introduces_no_occurrence;
use crate::text::lemma_replace_mask;

verus! {

/// An executable-name template after substitution of its two recognized
/// tokens.
pub open spec fn resolved_command_spec(cmd: Seq<char>, o: BundleView) -> Seq<char> {
    replace_spec(
        replace_spec(cmd, "{base_dir}"@, o.base_dir),
        "{dse_bin_dir}"@,
        o.dse_bin_dir,
    )
}

/// A secret parameter value: the fixed mask when rendering for report or
/// audit output, the actual value when rendering for invocation.
pub open spec fn secret_value_spec(secret: Seq<char>, mask: bool) -> Seq<char> {
    if mask {
        "****"@
    } else {
        secret
    }
}

/// The query-shell options blob: rendered for report or audit output, every
/// occurrence of the known non-empty password inside it is replaced by the
/// fixed mask; rendered for invocation it is passed through unchanged.
pub open spec fn cqlsh_opts_spec(opts: Seq<char>, password: Seq<char>, mask: bool) -> Seq<
    char,
> {
    if mask {
        replace_spec(opts, password, "****"@)
    } else {
        opts
    }
}

/// An argument-string template after substitution of every recognized
/// token, in the fixed substitution order.
pub open spec fn formatted_args_spec(args: Seq<char>, o: BundleView, mask: bool) -> Seq<
    char,
> {
    let a1 = replace_spec(args, "{artifact_dir}"@, o.artifact_dir);
    let a2 = replace_spec(a1, "{log_home}"@, o.log_home);
    let a3 = replace_spec(a2, "{data_dir}"@, o.data_dir);
    let a4 = replace_spec(a3, "{config_home}"@, o.config_home);
    let a5 = replace_spec(a4, "{cassandra_pid}"@, o.cassandra_pid);
    let a6 = replace_spec(a5, "{prometheus_jar}"@, o.prometheus_jar);
    let a7 = replace_spec(a6, "{jmx_port}"@, o.jmx_port);
    let a8 = replace_spec(a7, "{jmx_username}"@, o.jmx_username);
    let a9 = replace_spec(a8, "{jmx_password}"@, secret_value_spec(o.jmx_password, mask));
    let a10 = replace_spec(a9, "{nodetool_host}"@, o.nodetool_host);
    let a11 = replace_spec(
        a10,
        "{nodetool_credentials}"@,
        secret_value_spec(o.nodetool_credentials, mask),
    );
    let a12 = replace_spec(a11, "{cqlsh_host}"@, o.cqlsh_host);
    let a13 = replace_spec(
        a12,
        "{cqlsh_opts}"@,
        cqlsh_opts_spec(o.cqlsh_opts, o.cqlsh_password, mask),
    );
    let a14 = replace_spec(a13, "{dt_opts}"@, o.dt_opts);
    replace_spec(a14, "{solr_data_dir}"@, o.solr_data_dir)
}

/// One audit-log line: the resolved command, the masked arguments, and the
/// entry's output file.
pub open spec fn audit_line_spec(c: CmdView, o: BundleView) -> Seq<char> {
    resolved_command_spec(c.command, o) + " "@ + formatted_args_spec(c.args, o, true)
        + " > "@ + c.file + "\n"@
}

/// Resolves an executable-name template against the bundle.
pub fn format_command(cmd: &str, options: &Options) -> (r: String)
    ensures
        r@ == resolved_command_spec(cmd@, options@),
{
    let a = replace_str(cmd, "{base_dir}", options.base_dir.as_str());
    replace_str(a.as_str(), "{dse_bin_dir}", options.dse_bin_dir.as_str())
}

/// Renders a secret parameter: the fixed mask for report and audit output,
/// the actual value for invocation.
pub fn format_jmx_password(jmx_password: &str, mask: bool) -> (r: String)
    ensures
        r@ == secret_value_spec(jmx_password@, mask),
{
    if mask {
        String::from_str("****")
    } else {
        String::from_str(jmx_password)
    }
}

/// Renders the query-shell options blob, hiding the embedded password in
/// masked mode.
pub fn format_cqlsh_opts(cqlsh_opts: &str, cqlsh_password: &str, mask: bool) -> (r: String)
    ensures
        r@ == cqlsh_opts_spec(cqlsh_opts@, cqlsh_password@, mask),
{
    if mask {
        replace_str(cqlsh_opts, cqlsh_password, "****")
    } else {
        String::from_str(cqlsh_opts)
    }
}

/// Resolves an argument-string template against the bundle, masked or
/// unmasked.
pub fn format_args(args: &str, options: &Options, mask: bool) -> (r: String)
    ensures
        r@ == formatted_args_spec(args@, options@, mask),
{
    let a1 = replace_str(args, "{artifact_dir}", options.artifact_dir.as_str());
    let a2 = replace_str(a1.as_str(), "{log_home}", options.log_home.as_str());
    let a3 = replace_str(a2.as_str(), "{data_dir}", options.data_dir.as_str());
    let a4 = replace_str(a3.as_str(), "{config_home}", options.config_home.as_str());
    let a5 = replace_str(a4.as_str(), "{cassandra_pid}", options.cassandra_pid.as_str());
    let a6 = replace_str(a5.as_str(), "{prometheus_jar}", options.prometheus_jar.as_str());
    let a7 = replace_str(a6.as_str(), "{jmx_port}", options.jmx_port.as_str());
    let a8 = replace_str(a7.as_str(), "{jmx_username}", options.jmx_username.as_str());
    let pw = format_jmx_password(options.jmx_password.as_str(), mask);
    let a9 = replace_str(a8.as_str(), "{jmx_password}", pw.as_str());
    let a10 = replace_str(a9.as_str(), "{nodetool_host}", options.nodetool_host.as_str());
    let cred = format_jmx_password(options.nodetool_credentials.as_str(), mask);
    let a11 = replace_str(a10.as_str(), "{nodetool_credentials}", cred.as_str());
    let a12 = replace_str(a11.as_str(), "{cqlsh_host}", options.cqlsh_host.as_str());
    let opts = format_cqlsh_opts(
        options.cqlsh_opts.as_str(),
        options.cqlsh_password.as_str(),
        mask,
    );
    let a13 = replace_str(a12.as_str(), "{cqlsh_opts}", opts.as_str());
    let a14 = replace_str(a13.as_str(), "{dt_opts}", options.dt_opts.as_str());
    replace_str(a14.as_str(), "{solr_data_dir}", options.solr_data_dir.as_str())
}

/// Renders the audit-log line for one entry: resolved command, masked
/// arguments, output file.
pub fn audit_line(cmd: &crate::catalog::Cmd, options: &Options) -> (r: String)
    ensures
        r@ == audit_line_spec(cmd@, options@),
{
    let mut s = format_command(cmd.command.as_str(), options);
    let a = format_args(cmd.args.as_str(), options, true);
    s.append(" ");
    s.append(a.as_str());
    s.append(" > ");
    s.append(cmd.file.as_str());
    s.append("\n");
    s
}

/// The masked rendering of a secret parameter does not contain the secret,
/// for any non-empty secret free of the mask character.
pub proof fn lemma_masked_secret_hidden(secret: Seq<char>)
    requires
        secret.len() > 0,
        forall|i: int| 0 <= i < secret.len() ==> secret[i] != '*',
    ensures
        !occurs(secret_value_spec(secret, true), secret),
{
    reveal_strlit("****");
    let m = secret_value_spec(secret, true);
    assert forall|i: int| !occurs_at(m, secret, i) by {
        if occurs_at(m, secret, i) {
            assert(m.subrange(i, i + secret.len() as int)[0] == m[i]);
            assert(secret[0] == m[i]);
            assert(m[i] == '*');
        }
    }
}

/// A secret-token substitution of the masked rendering introduces no
/// occurrence of the secret: the token is replaced by the fixed mask, so
/// wherever the string after the step contains a non-empty secret free of
/// the mask character, the string before the step already contained it.
/// The unmasked rendering substitutes the secret itself there instead.
pub proof fn lemma_mask_substitution_introduces_no_secret(
    s: Seq<char>,
    token: Seq<char>,
    secret: Seq<char>,
)
    requires
        token.len() > 0,
        secret.len() > 0,
        forall|i: int| 0 <= i < secret.len() ==> secret[i] != '*',
        occurs(replace_spec(s, token, secret_value_spec(secret, true)), secret),
    ensures
        occurs(s, secret),
{
    reveal_strlit("****");
    assert forall|j: int| 0 <= j < "****"@.len() implies !secret.contains(
        #[trigger] "****"@[j],
    ) by {
        assert("****"@[j] == '*');
        if secret.contains('*') {
            let k = choose|k: int| 0 <= k < secret.len() && secret[k] == '*';
        }
    }
    lemma_replace_introduces_no_occurrence(s, token, "****"@, secret);
}

/// The masked rendering of the query-shell options blob does not contain
/// the embedded password, for any non-empty password free of the mask
/// character — whatever the options blob holds.
pub proof fn lemma_masked_cqlsh_opts_hide_password(opts: Seq<char>, password: Seq<char>)
    requires
        password.len() > 0,
        forall|i: int| 0 <= i < password.len() ==> password[i] != '*',
    ensures
        !occurs(cqlsh_opts_spec(opts, password, true), password),
{
    reveal_strlit("****");
    assert forall|j: int| 0 <= j < "****"@.len() implies !password.contains(
        #[trigger] "****"@[j],
    ) by {
        assert("****"@[j] == '*');
        if password.contains('*') {
            let k = choose|k: int| 0 <= k < password.len() && password[k] == '*';
        }
    }
    lemma_replace_mask(opts, password, "****"@);
}

} // verus!
