//! The vault VM's share of the provisioning: an autostart entry that runs
//! `ssh-add` for the vault user, and the qrexec service script that hands an
//! incoming request to the local `ssh-agent`, each with the state that
//! installs it.

use crate::make_vm::VmNames;
use crate::plan::FileWrite;
use crate::plan::MaintPlan;
use crate::plan::spec_base_dir;
use crate::plan::spec_files_path;
use crate::plan::spec_states_path;
use crate::salt::SaltError;
use crate::salt::SlsVmComplement;
use crate::salt::parse_verify_file;
use crate::salt::parse_verify_state;
use crate::salt::spec_first_root;
use crate::salt::spec_salt_source;
use crate::salt::spec_state_err;
use crate::salt::spec_state_name;
use crate::salt::spec_state_ok;
use vstd::prelude::*;
use vstd::string::StringExecFns;

verus! {

/// The autostart entry that runs `ssh-add` in the vault user's session, so
/// keys are loaded on login.
pub open spec fn spec_ssh_add_desktop() -> Seq<char> {
    "[Desktop Entry]\nName=ssh-add\nExec=ssh-add\nTerminal=true\nType=Application"@
}

/// The state that installs the `ssh-add` autostart entry into the vault
/// user's home.
pub open spec fn spec_ssh_add_sls(user: Seq<char>, source: Seq<char>) -> Seq<char> {
    "key-adder-vault-desktop:\n  file.managed:\n    - name: /home/"@ + user
        + "/.config/autostart/ssh-add.desktop\n    - source: "@ + source
        + "\n    - mode: 755\n    - group: "@ + user + "\n    - user: "@ + user
        + "\n    - makedirs: True"@
}

/// The path of the state that installs the autostart entry. The default
/// state directory uses the historical `-service` file name.
pub open spec fn spec_ssh_add_sls_path(states_dir: Option<String>) -> Seq<char> {
    match states_dir {
        Some(d) => d@ + "/split-ssh/key-adder-vault-desktop.sls"@,
        None => "/srv/salt/split-ssh/key-adder-vault-service.sls"@,
    }
}

/// The qrexec service script: it announces the request with a notification
/// bubble and splices the caller onto the local agent socket.
pub open spec fn spec_agent_script() -> Seq<char> {
    "#!/bin/sh\n# Qubes App Split SSH Script\n# safeguard - Qubes Notification bubble for each ssh request\nnotify-send \"[$(qubesdb-read /name)] SSH agent access from: $QREXEC_REMOTE_DOMAIN\"\n\n# ssh connection\nsocat - \"UNIX-CONNECT:$SSH_AUTH_SOCK\""@
}

/// The state that installs the qrexec service script.
pub open spec fn spec_agent_sls(user: Seq<char>, source: Seq<char>) -> Seq<char> {
    "vault-qubes-SshAgent-script:\n  file.managed:\n    - name: /etc/qubes-rpc/qubes.SshAgent\n    - source: "@
        + source + "\n    - mode: 744\n    - group: "@ + user + "\n    - user: "@ + user
}

/// Plan the vault VM's files.
///
/// `user` is the unprivileged account inside the vault AppVM; the caller
/// looks it up before planning. The key-adder states target the vault
/// AppVM, the service script states its template. Fails exactly when one of
/// the planned paths breaks the Salt path rules, handing through the error
/// of the first one that does, in plan order.
pub fn maint_files(
    vm_names: &VmNames,
    user: &String,
    files_dir: &Option<String>,
    states_dir: &Option<String>,
    file_roots: &Vec<String>,
) -> (r: Result<MaintPlan, SaltError>)
    ensures
        r is Ok <==> ({
            let roots = file_roots.deep_view();
            &&& spec_first_root(
                spec_files_path(*files_dir, "/split-ssh/key-adder-vault-desktop"@),
                roots,
            ) >= 0
            &&& spec_state_ok(spec_ssh_add_sls_path(*states_dir), roots)
            &&& spec_first_root(spec_files_path(*files_dir, "/split-ssh/qubes.SshAgent"@), roots)
                >= 0
            &&& spec_state_ok(
                spec_states_path(*states_dir, "/split-ssh/qubes-SshAgent-vault.sls"@),
                roots,
            )
        }),
        r matches Err(e) ==> ({
            let roots = file_roots.deep_view();
            if spec_first_root(
                spec_files_path(*files_dir, "/split-ssh/key-adder-vault-desktop"@),
                roots,
            ) < 0 {
                e is RootNotFound
            } else if !spec_state_ok(spec_ssh_add_sls_path(*states_dir), roots) {
                e == spec_state_err(spec_ssh_add_sls_path(*states_dir), roots)
            } else if spec_first_root(
                spec_files_path(*files_dir, "/split-ssh/qubes.SshAgent"@),
                roots,
            ) < 0 {
                e is RootNotFound
            } else {
                e == spec_state_err(
                    spec_states_path(*states_dir, "/split-ssh/qubes-SshAgent-vault.sls"@),
                    roots,
                )
            }
        }),
        r matches Ok(plan) ==> ({
            let roots = file_roots.deep_view();
            let key_path = spec_files_path(*files_dir, "/split-ssh/key-adder-vault-desktop"@);
            let key_sls_path = spec_ssh_add_sls_path(*states_dir);
            let script_path = spec_files_path(*files_dir, "/split-ssh/qubes.SshAgent"@);
            let script_sls_path = spec_states_path(
                *states_dir,
                "/split-ssh/qubes-SshAgent-vault.sls"@,
            );
            &&& plan.writes@.len() == 4
            &&& plan.writes@[0].path@ == key_path
            &&& plan.writes@[0].content@ == spec_ssh_add_desktop()
            &&& plan.writes@[1].path@ == key_sls_path
            &&& plan.writes@[1].content@ == spec_ssh_add_sls(
                user@,
                spec_salt_source(key_path, roots),
            )
            &&& plan.writes@[2].path@ == script_path
            &&& plan.writes@[2].content@ == spec_agent_script()
            &&& plan.writes@[3].path@ == script_sls_path
            &&& plan.writes@[3].content@ == spec_agent_sls(
                user@,
                spec_salt_source(script_path, roots),
            )
            &&& plan.complements@.len() == 2
            &&& plan.complements@[0].target_vm@ == vm_names.server_appvm.name@
            &&& plan.complements@[0].states@.len() == 1
            &&& plan.complements@[0].states@[0]@ == spec_state_name(key_sls_path, roots)
            &&& plan.complements@[1].target_vm@ == vm_names.server_template.name@
            &&& plan.complements@[1].states@.len() == 1
            &&& plan.complements@[1].states@[0]@ == spec_state_name(script_sls_path, roots)
        }),
{
    let mut key_path = match files_dir {
        Some(d) => d.clone(),
        None => ("/srv/salt/files").to_owned(),
    };
    key_path.append("/split-ssh/key-adder-vault-desktop");
    let key_sls_path = match states_dir {
        Some(d) => {
            let mut p = d.clone();
            p.append("/split-ssh/key-adder-vault-desktop.sls");
            p
        },
        None => ("/srv/salt/split-ssh/key-adder-vault-service.sls").to_owned(),
    };
    let mut script_path = match files_dir {
        Some(d) => d.clone(),
        None => ("/srv/salt/files").to_owned(),
    };
    script_path.append("/split-ssh/qubes.SshAgent");
    let mut script_sls_path = match states_dir {
        Some(d) => d.clone(),
        None => ("/srv/salt").to_owned(),
    };
    script_sls_path.append("/split-ssh/qubes-SshAgent-vault.sls");

    let key_src = match parse_verify_file(key_path.clone(), file_roots) {
        Ok(s) => s,
        Err(e) => { return Err(e) },
    };
    let key_state = match parse_verify_state(key_sls_path.clone(), file_roots) {
        Ok(s) => s,
        Err(e) => { return Err(e) },
    };
    let script_src = match parse_verify_file(script_path.clone(), file_roots) {
        Ok(s) => s,
        Err(e) => { return Err(e) },
    };
    let script_state = match parse_verify_state(script_sls_path.clone(), file_roots) {
        Ok(s) => s,
        Err(e) => { return Err(e) },
    };

    let key_desktop = (
    "[Desktop Entry]\nName=ssh-add\nExec=ssh-add\nTerminal=true\nType=Application").to_owned();

    let mut key_sls = ("key-adder-vault-desktop:\n  file.managed:\n    - name: /home/").to_owned();
    key_sls.append(user.as_str());
    key_sls.append("/.config/autostart/ssh-add.desktop\n    - source: ");
    key_sls.append(key_src.as_str());
    key_sls.append("\n    - mode: 755\n    - group: ");
    key_sls.append(user.as_str());
    key_sls.append("\n    - user: ");
    key_sls.append(user.as_str());
    key_sls.append("\n    - makedirs: True");

    let script_content = (
    "#!/bin/sh\n# Qubes App Split SSH Script\n# safeguard - Qubes Notification bubble for each ssh request\nnotify-send \"[$(qubesdb-read /name)] SSH agent access from: $QREXEC_REMOTE_DOMAIN\"\n\n# ssh connection\nsocat - \"UNIX-CONNECT:$SSH_AUTH_SOCK\"").to_owned();

    let mut script_sls = (
    "vault-qubes-SshAgent-script:\n  file.managed:\n    - name: /etc/qubes-rpc/qubes.SshAgent\n    - source: ").to_owned();
    script_sls.append(script_src.as_str());
    script_sls.append("\n    - mode: 744\n    - group: ");
    script_sls.append(user.as_str());
    script_sls.append("\n    - user: ");
    script_sls.append(user.as_str());

    let mut writes: Vec<FileWrite> = Vec::new();
    writes.push(FileWrite { path: key_path, content: key_desktop });
    writes.push(FileWrite { path: key_sls_path, content: key_sls });
    writes.push(FileWrite { path: script_path, content: script_content });
    writes.push(FileWrite { path: script_sls_path, content: script_sls });

    let mut key_states: Vec<String> = Vec::new();
    key_states.push(key_state);
    let mut script_states: Vec<String> = Vec::new();
    script_states.push(script_state);
    let mut complements: Vec<SlsVmComplement> = Vec::new();
    complements.push(
        SlsVmComplement { target_vm: vm_names.server_appvm.name.clone(), states: key_states },
    );
    complements.push(
        SlsVmComplement {
            target_vm: vm_names.server_template.name.clone(),
            states: script_states,
        },
    );

    Ok(MaintPlan { writes, complements })
}

} // verus!
