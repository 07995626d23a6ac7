//! The client VM's share of the provisioning, for the socat transport: a
//! socket script that listens on the agent socket and forwards over qrexec,
//! an autostart entry for it, and a profile script exporting
//! `SSH_AUTH_SOCK`, each with the state that installs it.

use crate::make_vm::VmNames;
use crate::plan::FileWrite;
use crate::plan::MaintPlan;
use crate::plan::spec_base_dir;
use crate::plan::spec_files_path;
use crate::plan::spec_states_path;
use crate::salt::SaltError;
use crate::salt::SlsVmComplement;
use crate::salt::parse_verify_file;
use crate::salt::parse_verify_state;
use crate::salt::spec_first_root;
use crate::salt::spec_salt_source;
use crate::salt::spec_state_err;
use crate::salt::spec_state_name;
use crate::salt::spec_state_ok;
use vstd::prelude::*;
use vstd::string::StringExecFns;

verus! {

/// The socket script: it keeps a listening socket under the run directory
/// and hands each connection to the vault VM's agent service over qrexec.
pub open spec fn spec_socket_script(server_appvm: Seq<char>) -> Seq<char> {
    "#! /bin/bash\n#\n# Split SSH Configuration\nTMP_DIR=\"/tmp/split-ssh-1820912\"\n\nif [ ! -d $TMP_DIR ]; then\n  mkdir -p $TMP_DIR \nfi\n\nSSH_VAULT_VM=\""@
        + server_appvm
        + "\"\n\nexport SSH_SOCK=\"$TMP_DIR/SSH_AGENT_$SSH_VAULT_VM\"\n\nsudo -u user /bin/sh -c \"umask 177 && exec socat 'UNIX-LISTEN:$SSH_SOCK,fork' 'EXEC:qrexec-client-vm $SSH_VAULT_VM qubes.SshAgent'\" &"@
}

/// The autostart entry that launches the socket script.
pub open spec fn spec_socket_desktop() -> Seq<char> {
    "[Desktop Entry]\nName=Split SSH Socket Startup\nExec=/opt/split-ssh/socket-script.sh\nTerminal=false\nType=Application"@
}

/// The state that installs the socket script and its autostart entry.
pub open spec fn spec_socket_sls(sock_src: Seq<char>, desktop_src: Seq<char>, user: Seq<char>) -> Seq<
    char,
> {
    "client-socket-script:\n  file.managed:\n    - source: "@ + sock_src
        + "\n    - name: /opt/split-ssh/socket-script.sh\n    - mode: 744\n    - user: "@ + user
        + "\n    - group: "@ + user
        + "\n    - makedirs: True\n\nclient-socket-script-xdg-desktop:\n  file.managed:\n    - source: "@
        + desktop_src
        + "\n    - name: /etc/xdg/autostart/split-ssh-socket.desktop\n    - mode: 644\n    - user: root\n    - group: root"@
}

/// The profile script that points every login shell's `SSH_AUTH_SOCK` at
/// the forwarded socket.
pub open spec fn spec_auth_sock_profile(server_appvm: Seq<char>) -> Seq<char> {
    "#! /bin/bash\n#\n# Qubes Split SSH - sets the SSH_AUTH_SOCK for the ssh-client\n#\nSSH_VAULT_VM=\""@
        + server_appvm
        + "\"\nexport SSH_AUTH_SOCK=\"/tmp/split-ssh-1820912/SSH_AGENT_$SSH_VAULT_VM\""@
}

/// The state that installs the profile script.
pub open spec fn spec_auth_sock_sls(source: Seq<char>) -> Seq<char> {
    "global-bashrc-split-ssh-append:\n  file.managed:\n    - name: /etc/profile.d/split-ssh-auth-sock.sh\n    - source: "@
        + source + "\n    - user: root\n    - group: root\n    - mode: 755"@
}

/// Reported by [`maint_files_rust`]: the rust transport's provisioning is
/// not provided.
#[derive(Clone, Copy, Debug, PartialEq, Eq, Structural)]
pub struct ProtocolUnavailable;

/// Plan the client VM's files for the socat transport.
///
/// `user` is the unprivileged account inside the client's disposable VM;
/// the caller looks it up before planning. Fails exactly when one of the
/// planned paths breaks the Salt path rules, handing through the error of
/// the first one that does, in plan order.
pub fn maint_files_socat(
    vm_names: &VmNames,
    user: &String,
    files_dir: &Option<String>,
    states_dir: &Option<String>,
    file_roots: &Vec<String>,
) -> (r: Result<MaintPlan, SaltError>)
    ensures
        r is Ok <==> ({
            let roots = file_roots.deep_view();
            &&& spec_first_root(
                spec_files_path(*files_dir, "/split-ssh/socket-script.sh"@),
                roots,
            ) >= 0
            &&& spec_first_root(
                spec_files_path(*files_dir, "/split-ssh/split-ssh-socket.desktop"@),
                roots,
            ) >= 0
            &&& spec_state_ok(spec_states_path(*states_dir, "/split-ssh/client-files.sls"@), roots)
            &&& spec_first_root(
                spec_files_path(*files_dir, "/split-ssh/split-ssh-auth-sock.sh"@),
                roots,
            ) >= 0
            &&& spec_state_ok(
                spec_states_path(*states_dir, "/split-ssh/auth-sock-profd.sls"@),
                roots,
            )
        }),
        r matches Err(e) ==> ({
            let roots = file_roots.deep_view();
            if spec_first_root(spec_files_path(*files_dir, "/split-ssh/socket-script.sh"@), roots)
                < 0 {
                e is RootNotFound
            } else if spec_first_root(
                spec_files_path(*files_dir, "/split-ssh/split-ssh-socket.desktop"@),
                roots,
            ) < 0 {
                e is RootNotFound
            } else if !spec_state_ok(
                spec_states_path(*states_dir, "/split-ssh/client-files.sls"@),
                roots,
            ) {
                e == spec_state_err(
                    spec_states_path(*states_dir, "/split-ssh/client-files.sls"@),
                    roots,
                )
            } else if spec_first_root(
                spec_files_path(*files_dir, "/split-ssh/split-ssh-auth-sock.sh"@),
                roots,
            ) < 0 {
                e is RootNotFound
            } else {
                e == spec_state_err(
                    spec_states_path(*states_dir, "/split-ssh/auth-sock-profd.sls"@),
                    roots,
                )
            }
        }),
        r matches Ok(plan) ==> ({
            let roots = file_roots.deep_view();
            let sock_path = spec_files_path(*files_dir, "/split-ssh/socket-script.sh"@);
            let desktop_path = spec_files_path(*files_dir, "/split-ssh/split-ssh-socket.desktop"@);
            let client_sls_path = spec_states_path(*states_dir, "/split-ssh/client-files.sls"@);
            let profd_path = spec_files_path(*files_dir, "/split-ssh/split-ssh-auth-sock.sh"@);
            let profd_sls_path = spec_states_path(*states_dir, "/split-ssh/auth-sock-profd.sls"@);
            &&& plan.writes@.len() == 5
            &&& plan.writes@[0].path@ == sock_path
            &&& plan.writes@[0].content@ == spec_socket_script(vm_names.server_appvm.name@)
            &&& plan.writes@[1].path@ == desktop_path
            &&& plan.writes@[1].content@ == spec_socket_desktop()
            &&& plan.writes@[2].path@ == client_sls_path
            &&& plan.writes@[2].content@ == spec_socket_sls(
                spec_salt_source(sock_path, roots),
                spec_salt_source(desktop_path, roots),
                user@,
            )
            &&& plan.writes@[3].path@ == profd_path
            &&& plan.writes@[3].content@ == spec_auth_sock_profile(vm_names.server_appvm.name@)
            &&& plan.writes@[4].path@ == profd_sls_path
            &&& plan.writes@[4].content@ == spec_auth_sock_sls(spec_salt_source(profd_path, roots))
            &&& plan.complements@.len() == 1
            &&& plan.complements@[0].target_vm@ == vm_names.client_template.name@
            &&& plan.complements@[0].states@.len() == 2
            &&& plan.complements@[0].states@[0]@ == spec_state_name(client_sls_path, roots)
            &&& plan.complements@[0].states@[1]@ == spec_state_name(profd_sls_path, roots)
        }),
{
    let mut sock_path = files_base(files_dir);
    sock_path.append("/split-ssh/socket-script.sh");
    let mut desktop_path = files_base(files_dir);
    desktop_path.append("/split-ssh/split-ssh-socket.desktop");
    let mut client_sls_path = states_base(states_dir);
    client_sls_path.append("/split-ssh/client-files.sls");
    let mut profd_path = files_base(files_dir);
    profd_path.append("/split-ssh/split-ssh-auth-sock.sh");
    let mut profd_sls_path = states_base(states_dir);
    profd_sls_path.append("/split-ssh/auth-sock-profd.sls");

    let sock_src = match parse_verify_file(sock_path.clone(), file_roots) {
        Ok(s) => s,
        Err(e) => { return Err(e) },
    };
    let desktop_src = match parse_verify_file(desktop_path.clone(), file_roots) {
        Ok(s) => s,
        Err(e) => { return Err(e) },
    };
    let client_state = match parse_verify_state(client_sls_path.clone(), file_roots) {
        Ok(s) => s,
        Err(e) => { return Err(e) },
    };
    let profd_src = match parse_verify_file(profd_path.clone(), file_roots) {
        Ok(s) => s,
        Err(e) => { return Err(e) },
    };
    let profd_state = match parse_verify_state(profd_sls_path.clone(), file_roots) {
        Ok(s) => s,
        Err(e) => { return Err(e) },
    };

    let mut sock_script = (
    "#! /bin/bash\n#\n# Split SSH Configuration\nTMP_DIR=\"/tmp/split-ssh-1820912\"\n\nif [ ! -d $TMP_DIR ]; then\n  mkdir -p $TMP_DIR \nfi\n\nSSH_VAULT_VM=\"").to_owned();
    sock_script.append(vm_names.server_appvm.name.as_str());
    sock_script.append(
        "\"\n\nexport SSH_SOCK=\"$TMP_DIR/SSH_AGENT_$SSH_VAULT_VM\"\n\nsudo -u user /bin/sh -c \"umask 177 && exec socat 'UNIX-LISTEN:$SSH_SOCK,fork' 'EXEC:qrexec-client-vm $SSH_VAULT_VM qubes.SshAgent'\" &",
    );

    let desktop_content = (
    "[Desktop Entry]\nName=Split SSH Socket Startup\nExec=/opt/split-ssh/socket-script.sh\nTerminal=false\nType=Application").to_owned();

    let mut client_sls = ("client-socket-script:\n  file.managed:\n    - source: ").to_owned();
    client_sls.append(sock_src.as_str());
    client_sls.append("\n    - name: /opt/split-ssh/socket-script.sh\n    - mode: 744\n    - user: ");
    client_sls.append(user.as_str());
    client_sls.append("\n    - group: ");
    client_sls.append(user.as_str());
    client_sls.append(
        "\n    - makedirs: True\n\nclient-socket-script-xdg-desktop:\n  file.managed:\n    - source: ",
    );
    client_sls.append(desktop_src.as_str());
    client_sls.append(
        "\n    - name: /etc/xdg/autostart/split-ssh-socket.desktop\n    - mode: 644\n    - user: root\n    - group: root",
    );

    let mut profd_content = (
    "#! /bin/bash\n#\n# Qubes Split SSH - sets the SSH_AUTH_SOCK for the ssh-client\n#\nSSH_VAULT_VM=\"").to_owned();
    profd_content.append(vm_names.server_appvm.name.as_str());
    profd_content.append(
        "\"\nexport SSH_AUTH_SOCK=\"/tmp/split-ssh-1820912/SSH_AGENT_$SSH_VAULT_VM\"",
    );

    let mut profd_sls = (
    "global-bashrc-split-ssh-append:\n  file.managed:\n    - name: /etc/profile.d/split-ssh-auth-sock.sh\n    - source: ").to_owned();
    profd_sls.append(profd_src.as_str());
    profd_sls.append("\n    - user: root\n    - group: root\n    - mode: 755");

    let mut writes: Vec<FileWrite> = Vec::new();
    writes.push(FileWrite { path: sock_path, content: sock_script });
    writes.push(FileWrite { path: desktop_path, content: desktop_content });
    writes.push(FileWrite { path: client_sls_path, content: client_sls });
    writes.push(FileWrite { path: profd_path, content: profd_content });
    writes.push(FileWrite { path: profd_sls_path, content: profd_sls });

    let mut states: Vec<String> = Vec::new();
    states.push(client_state);
    states.push(profd_state);
    let mut complements: Vec<SlsVmComplement> = Vec::new();
    complements.push(
        SlsVmComplement { target_vm: vm_names.client_template.name.clone(), states },
    );

    Ok(MaintPlan { writes, complements })
}

/// Plan the client VM's files for the rust transport.
///
/// That transport's provisioning is not provided by this library — the
/// socat transport is the supported one — so every call reports so.
pub fn maint_files_rust(_vm_names: &VmNames) -> (r: Result<MaintPlan, ProtocolUnavailable>)
    ensures
        r is Err,
{
    Err(ProtocolUnavailable)
}

fn files_base(files_dir: &Option<String>) -> (r: String)
    ensures
        r@ == spec_base_dir(*files_dir, "/srv/salt/files"@),
{
    match files_dir {
        Some(d) => d.clone(),
        None => ("/srv/salt/files").to_owned(),
    }
}

fn states_base(states_dir: &Option<String>) -> (r: String)
    ensures
        r@ == spec_base_dir(*states_dir, "/srv/salt"@),
{
    match states_dir {
        Some(d) => d.clone(),
        None => ("/srv/salt").to_owned(),
    }
}

} // verus!
