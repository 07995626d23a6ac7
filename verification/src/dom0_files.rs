//! dom0's share of the provisioning: the qrexec policy for the
//! `qubes.SshAgent` service, and the state that installs it.
//!
//! Directory defaults: managed files go under `/srv/salt/files`, states
//! under `/srv/salt`, each in a `split-ssh` subdirectory.

use crate::make_vm::VmNames;
use crate::plan::FileWrite;
use crate::plan::MaintPlan;
use crate::plan::spec_base_dir;
use crate::salt::SaltError;
use crate::salt::SlsVmComplement;
use crate::salt::parse_verify_file;
use crate::salt::parse_verify_state;
use crate::salt::spec_first_root;
use crate::salt::spec_salt_source;
use crate::salt::spec_state_err;
use crate::salt::spec_state_name;
use crate::salt::spec_state_ok;
use vstd::prelude::*;
use vstd::string::StringExecFns;

verus! {

/// The qrexec policy line: requests from the disposable client VM to the
/// vault AppVM are allowed after asking, with the vault AppVM preselected.
pub open spec fn spec_policy_content(dvm_client: Seq<char>, server_appvm: Seq<char>) -> Seq<char> {
    "qubes.SshAgent * "@ + dvm_client + " "@ + server_appvm + " ask default_target="@
        + server_appvm
}

/// The state that installs the policy file in dom0 from its Salt source.
pub open spec fn spec_policy_sls(source: Seq<char>) -> Seq<char> {
    "dom0-split-ssh-policy:\n  file.managed:\n    - name: /etc/qubes/policy.d/10-split-ssh.policy\n    - source: "@
        + source + "\n    - user: root\n    - group: root\n    - mode: 644"@
}

/// Plan dom0's files: the policy file under the files directory, the state
/// that installs it under the default state directory, and a `dom0` state
/// set naming that state.
///
/// Fails exactly when one of the two paths lies outside the configured Salt
/// file roots (the state path must also begin with a slash and end in
/// `.sls` after root-stripping), handing that path's error through.
pub fn maint_files(vm_names: &VmNames, files_dir: &Option<String>, file_roots: &Vec<String>) -> (r:
    Result<MaintPlan, SaltError>)
    ensures
        r is Ok <==> ({
            let policy_path = spec_base_dir(*files_dir, "/srv/salt/files"@)
                + "/split-ssh/10-split-ssh.policy"@;
            let state_path = "/srv/salt/split-ssh/split-ssh-policy.sls"@;
            &&& spec_first_root(policy_path, file_roots.deep_view()) >= 0
            &&& spec_state_ok(state_path, file_roots.deep_view())
        }),
        r matches Err(e) ==> ({
            let policy_path = spec_base_dir(*files_dir, "/srv/salt/files"@)
                + "/split-ssh/10-split-ssh.policy"@;
            let state_path = "/srv/salt/split-ssh/split-ssh-policy.sls"@;
            if spec_first_root(policy_path, file_roots.deep_view()) < 0 {
                e is RootNotFound
            } else {
                e == spec_state_err(state_path, file_roots.deep_view())
            }
        }),
        r matches Ok(plan) ==> ({
            let policy_path = spec_base_dir(*files_dir, "/srv/salt/files"@)
                + "/split-ssh/10-split-ssh.policy"@;
            let state_path = "/srv/salt/split-ssh/split-ssh-policy.sls"@;
            &&& plan.writes@.len() == 2
            &&& plan.writes@[0].path@ == policy_path
            &&& plan.writes@[0].content@ == spec_policy_content(
                vm_names.dvm_client.name@,
                vm_names.server_appvm.name@,
            )
            &&& plan.writes@[1].path@ == state_path
            &&& plan.writes@[1].content@ == spec_policy_sls(
                spec_salt_source(policy_path, file_roots.deep_view()),
            )
            &&& spec_first_root(policy_path, file_roots.deep_view()) >= 0
            &&& plan.complements@.len() == 1
            &&& plan.complements@[0].target_vm@ == "dom0"@
            &&& plan.complements@[0].states@.len() == 1
            &&& plan.complements@[0].states@[0]@ == spec_state_name(
                state_path,
                file_roots.deep_view(),
            )
        }),
{
    let mut policy_path = match files_dir {
        Some(d) => d.clone(),
        None => ("/srv/salt/files").to_owned(),
    };
    policy_path.append("/split-ssh/10-split-ssh.policy");

    let mut policy_content = ("qubes.SshAgent * ").to_owned();
    policy_content.append(vm_names.dvm_client.name.as_str());
    policy_content.append(" ");
    policy_content.append(vm_names.server_appvm.name.as_str());
    policy_content.append(" ask default_target=");
    policy_content.append(vm_names.server_appvm.name.as_str());

    let source = match parse_verify_file(policy_path.clone(), file_roots) {
        Ok(s) => s,
        Err(e) => { return Err(e) },
    };

    let mut sls_content = (
    "dom0-split-ssh-policy:\n  file.managed:\n    - name: /etc/qubes/policy.d/10-split-ssh.policy\n    - source: ").to_owned();
    sls_content.append(source.as_str());
    sls_content.append("\n    - user: root\n    - group: root\n    - mode: 644");

    let state_path = ("/srv/salt/split-ssh/split-ssh-policy.sls").to_owned();
    let state_name = match parse_verify_state(state_path.clone(), file_roots) {
        Ok(s) => s,
        Err(e) => { return Err(e) },
    };

    let mut writes: Vec<FileWrite> = Vec::new();
    writes.push(FileWrite { path: policy_path, content: policy_content });
    writes.push(FileWrite { path: state_path, content: sls_content });

    let mut states: Vec<String> = Vec::new();
    states.push(state_name);
    let mut complements: Vec<SlsVmComplement> = Vec::new();
    complements.push(SlsVmComplement { target_vm: ("dom0").to_owned(), states });

    Ok(MaintPlan { writes, complements })
}

} // verus!
