//! The VMs a split-SSH deployment spans, and the package-dependency states
//! their templates need.

use crate::plan::FileWrite;
use crate::plan::MaintPlan;
use crate::plan::spec_states_path;
use crate::salt::SaltError;
use crate::salt::SlsVmComplement;
use crate::salt::parse_verify_state;
use crate::salt::spec_state_err;
use crate::salt::spec_state_name;
use crate::salt::spec_state_ok;
use vstd::prelude::*;
use vstd::string::StringExecFns;

verus! {

/// One virtual machine: its name and the unprivileged user inside it.
pub struct VmInfo {
    pub name: String,
    pub user: String,
}

/// The four VMs of a deployment: the SSH client's template and disposable
/// VM, and the vault side's template and AppVM.
pub struct VmNames {
    pub client_template: VmInfo,
    pub dvm_client: VmInfo,
    pub server_template: VmInfo,
    pub server_appvm: VmInfo,
}

/// The packages the client template needs, by distribution.
pub open spec fn spec_client_deps_sls() -> Seq<char> {
    "{% set os = salt['grains.get']('os') %}\nclient_deps: \n  pkg.installed: \n    - pkgs: \n    {% if os == \"Fedora\" %}\n      - openssh \n      - socat\n    {% elif os == \"Debian\" %}\n      - openssh-client\n      - socat\n    {% endif %}"@
}

/// The packages the vault template needs, by distribution.
pub open spec fn spec_vault_deps_sls() -> Seq<char> {
    "{% set os = salt['grains.get']('os') %}\nserver_deps:\n  pkg.installed:\n    - pkgs:\n    {% if os == \"Fedora\" %}\n      - openssh\n      - socat\n      - openssh-askpass\n      - libnotify\n    {% elif os == \"Debian\" %}\n      - openssh-client\n      - socat\n      - ssh-askpass\n      - libnotify-bin\n    {% endif %}"@
}

/// Plan the package-dependency states: one for the client template, one for
/// the vault template. Fails exactly when one of the two state paths breaks
/// the Salt path rules, handing through the error of the first one that
/// does.
pub fn deps(
    custom_dir: &Option<String>,
    vm_names: &VmNames,
    file_roots: &Vec<String>,
) -> (r: Result<MaintPlan, SaltError>)
    ensures
        r is Ok <==> ({
            let roots = file_roots.deep_view();
            &&& spec_state_ok(
                spec_states_path(*custom_dir, "/split-ssh/ssh-client-deps.sls"@),
                roots,
            )
            &&& spec_state_ok(
                spec_states_path(*custom_dir, "/split-ssh/ssh-vault-deps.sls"@),
                roots,
            )
        }),
        r matches Err(e) ==> ({
            let roots = file_roots.deep_view();
            if !spec_state_ok(
                spec_states_path(*custom_dir, "/split-ssh/ssh-client-deps.sls"@),
                roots,
            ) {
                e == spec_state_err(
                    spec_states_path(*custom_dir, "/split-ssh/ssh-client-deps.sls"@),
                    roots,
                )
            } else {
                e == spec_state_err(
                    spec_states_path(*custom_dir, "/split-ssh/ssh-vault-deps.sls"@),
                    roots,
                )
            }
        }),
        r matches Ok(plan) ==> ({
            let roots = file_roots.deep_view();
            let client_path = spec_states_path(*custom_dir, "/split-ssh/ssh-client-deps.sls"@);
            let vault_path = spec_states_path(*custom_dir, "/split-ssh/ssh-vault-deps.sls"@);
            &&& plan.writes@.len() == 2
            &&& plan.writes@[0].path@ == client_path
            &&& plan.writes@[0].content@ == spec_client_deps_sls()
            &&& plan.writes@[1].path@ == vault_path
            &&& plan.writes@[1].content@ == spec_vault_deps_sls()
            &&& plan.complements@.len() == 2
            &&& plan.complements@[0].target_vm@ == vm_names.client_template.name@
            &&& plan.complements@[0].states@.len() == 1
            &&& plan.complements@[0].states@[0]@ == spec_state_name(client_path, roots)
            &&& plan.complements@[1].target_vm@ == vm_names.server_template.name@
            &&& plan.complements@[1].states@.len() == 1
            &&& plan.complements@[1].states@[0]@ == spec_state_name(vault_path, roots)
        }),
{
    let mut client_path = match custom_dir {
        Some(d) => d.clone(),
        None => ("/srv/salt").to_owned(),
    };
    client_path.append("/split-ssh/ssh-client-deps.sls");
    let mut vault_path = match custom_dir {
        Some(d) => d.clone(),
        None => ("/srv/salt").to_owned(),
    };
    vault_path.append("/split-ssh/ssh-vault-deps.sls");

    let client_state = match parse_verify_state(client_path.clone(), file_roots) {
        Ok(s) => s,
        Err(e) => { return Err(e) },
    };
    let vault_state = match parse_verify_state(vault_path.clone(), file_roots) {
        Ok(s) => s,
        Err(e) => { return Err(e) },
    };

    let client_content = (
    "{% set os = salt['grains.get']('os') %}\nclient_deps: \n  pkg.installed: \n    - pkgs: \n    {% if os == \"Fedora\" %}\n      - openssh \n      - socat\n    {% elif os == \"Debian\" %}\n      - openssh-client\n      - socat\n    {% endif %}").to_owned();
    let vault_content = (
    "{% set os = salt['grains.get']('os') %}\nserver_deps:\n  pkg.installed:\n    - pkgs:\n    {% if os == \"Fedora\" %}\n      - openssh\n      - socat\n      - openssh-askpass\n      - libnotify\n    {% elif os == \"Debian\" %}\n      - openssh-client\n      - socat\n      - ssh-askpass\n      - libnotify-bin\n    {% endif %}").to_owned();

    let mut writes: Vec<FileWrite> = Vec::new();
    writes.push(FileWrite { path: client_path, content: client_content });
    writes.push(FileWrite { path: vault_path, content: vault_content });

    let mut client_states: Vec<String> = Vec::new();
    client_states.push(client_state);
    let mut vault_states: Vec<String> = Vec::new();
    vault_states.push(vault_state);
    let mut complements: Vec<SlsVmComplement> = Vec::new();
    complements.push(
        SlsVmComplement {
            target_vm: vm_names.client_template.name.clone(),
            states: client_states,
        },
    );
    complements.push(
        SlsVmComplement {
            target_vm: vm_names.server_template.name.clone(),
            states: vault_states,
        },
    );

    Ok(MaintPlan { writes, complements })
}

} // verus!
