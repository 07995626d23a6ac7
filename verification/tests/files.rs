use split_ssh::client_files::{maint_files_rust, maint_files_socat};
use split_ssh::dom0_files;
use split_ssh::make_vm::{VmInfo, VmNames};
use split_ssh::salt::SaltError;
use split_ssh::server_files;

fn vm(name: &str) -> VmInfo {
    VmInfo {
        name: name.to_string(),
        user: "user".to_string(),
    }
}

fn names() -> VmNames {
    VmNames {
        client_template: vm("ssh-client-template"),
        dvm_client: vm("dvm-client"),
        server_template: vm("vault-template"),
        server_appvm: vm("vault-ssh"),
    }
}

fn roots() -> Vec<String> {
    vec!["/srv/salt".to_string()]
}

#[test]
fn dom0_plan_is_exact() {
    let plan = dom0_files::maint_files(&names(), &None, &roots()).unwrap();
    assert_eq!(plan.writes.len(), 2);
    assert_eq!(plan.writes[0].path, "/srv/salt/files/split-ssh/10-split-ssh.policy");
    assert_eq!(
        plan.writes[0].content,
        "qubes.SshAgent * dvm-client vault-ssh ask default_target=vault-ssh"
    );
    assert_eq!(plan.writes[1].path, "/srv/salt/split-ssh/split-ssh-policy.sls");
    assert_eq!(
        plan.writes[1].content,
        "dom0-split-ssh-policy:\n  file.managed:\n    - name: /etc/qubes/policy.d/10-split-ssh.policy\n    - source: salt://files/split-ssh/10-split-ssh.policy\n    - user: root\n    - group: root\n    - mode: 644"
    );
    assert_eq!(plan.complements.len(), 1);
    assert_eq!(plan.complements[0].target_vm, "dom0");
    assert_eq!(plan.complements[0].states, vec!["split-ssh.split-ssh-policy".to_string()]);
}

#[test]
fn dom0_plan_needs_the_roots() {
    let r = vec!["/elsewhere".to_string()];
    assert!(matches!(
        dom0_files::maint_files(&names(), &None, &r),
        Err(SaltError::RootNotFound)
    ));
}

#[test]
fn server_plan_is_exact() {
    let user = "user".to_string();
    let plan = server_files::maint_files(&names(), &user, &None, &None, &roots()).unwrap();
    assert_eq!(plan.writes.len(), 4);
    assert_eq!(plan.writes[0].path, "/srv/salt/files/split-ssh/key-adder-vault-desktop");
    assert_eq!(
        plan.writes[0].content,
        "[Desktop Entry]\nName=ssh-add\nExec=ssh-add\nTerminal=true\nType=Application"
    );
    assert_eq!(plan.writes[1].path, "/srv/salt/split-ssh/key-adder-vault-service.sls");
    assert_eq!(
        plan.writes[1].content,
        "key-adder-vault-desktop:\n  file.managed:\n    - name: /home/user/.config/autostart/ssh-add.desktop\n    - source: salt://files/split-ssh/key-adder-vault-desktop\n    - mode: 755\n    - group: user\n    - user: user\n    - makedirs: True"
    );
    assert_eq!(plan.writes[2].path, "/srv/salt/files/split-ssh/qubes.SshAgent");
    assert_eq!(
        plan.writes[2].content,
        "#!/bin/sh\n# Qubes App Split SSH Script\n# safeguard - Qubes Notification bubble for each ssh request\nnotify-send \"[$(qubesdb-read /name)] SSH agent access from: $QREXEC_REMOTE_DOMAIN\"\n\n# ssh connection\nsocat - \"UNIX-CONNECT:$SSH_AUTH_SOCK\""
    );
    assert_eq!(plan.writes[3].path, "/srv/salt/split-ssh/qubes-SshAgent-vault.sls");
    assert_eq!(
        plan.writes[3].content,
        "vault-qubes-SshAgent-script:\n  file.managed:\n    - name: /etc/qubes-rpc/qubes.SshAgent\n    - source: salt://files/split-ssh/qubes.SshAgent\n    - mode: 744\n    - group: user\n    - user: user"
    );
    assert_eq!(plan.complements.len(), 2);
    assert_eq!(plan.complements[0].target_vm, "vault-ssh");
    assert_eq!(plan.complements[0].states, vec!["split-ssh.key-adder-vault-service".to_string()]);
    assert_eq!(plan.complements[1].target_vm, "vault-template");
    assert_eq!(plan.complements[1].states, vec!["split-ssh.qubes-SshAgent-vault".to_string()]);
}

#[test]
fn client_socat_plan_is_exact() {
    let user = "user".to_string();
    let files_dir = Some("/srv/salt/files".to_string());
    let states_dir = Some("/srv/salt/states".to_string());
    let plan =
        maint_files_socat(&names(), &user, &files_dir, &states_dir, &roots()).unwrap();
    assert_eq!(plan.writes.len(), 5);
    assert_eq!(plan.writes[0].path, "/srv/salt/files/split-ssh/socket-script.sh");
    assert_eq!(
        plan.writes[0].content,
        "#! /bin/bash\n#\n# Split SSH Configuration\nTMP_DIR=\"/tmp/split-ssh-1820912\"\n\nif [ ! -d $TMP_DIR ]; then\n  mkdir -p $TMP_DIR \nfi\n\nSSH_VAULT_VM=\"vault-ssh\"\n\nexport SSH_SOCK=\"$TMP_DIR/SSH_AGENT_$SSH_VAULT_VM\"\n\nsudo -u user /bin/sh -c \"umask 177 && exec socat 'UNIX-LISTEN:$SSH_SOCK,fork' 'EXEC:qrexec-client-vm $SSH_VAULT_VM qubes.SshAgent'\" &"
    );
    assert_eq!(plan.writes[1].path, "/srv/salt/files/split-ssh/split-ssh-socket.desktop");
    assert_eq!(
        plan.writes[1].content,
        "[Desktop Entry]\nName=Split SSH Socket Startup\nExec=/opt/split-ssh/socket-script.sh\nTerminal=false\nType=Application"
    );
    assert_eq!(plan.writes[2].path, "/srv/salt/states/split-ssh/client-files.sls");
    assert_eq!(
        plan.writes[2].content,
        "client-socket-script:\n  file.managed:\n    - source: salt://files/split-ssh/socket-script.sh\n    - name: /opt/split-ssh/socket-script.sh\n    - mode: 744\n    - user: user\n    - group: user\n    - makedirs: True\n\nclient-socket-script-xdg-desktop:\n  file.managed:\n    - source: salt://files/split-ssh/split-ssh-socket.desktop\n    - name: /etc/xdg/autostart/split-ssh-socket.desktop\n    - mode: 644\n    - user: root\n    - group: root"
    );
    assert_eq!(plan.writes[3].path, "/srv/salt/files/split-ssh/split-ssh-auth-sock.sh");
    assert_eq!(
        plan.writes[3].content,
        "#! /bin/bash\n#\n# Qubes Split SSH - sets the SSH_AUTH_SOCK for the ssh-client\n#\nSSH_VAULT_VM=\"vault-ssh\"\nexport SSH_AUTH_SOCK=\"/tmp/split-ssh-1820912/SSH_AGENT_$SSH_VAULT_VM\""
    );
    assert_eq!(plan.writes[4].path, "/srv/salt/states/split-ssh/auth-sock-profd.sls");
    assert_eq!(
        plan.writes[4].content,
        "global-bashrc-split-ssh-append:\n  file.managed:\n    - name: /etc/profile.d/split-ssh-auth-sock.sh\n    - source: salt://files/split-ssh/split-ssh-auth-sock.sh\n    - user: root\n    - group: root\n    - mode: 755"
    );
    assert_eq!(plan.complements.len(), 1);
    assert_eq!(plan.complements[0].target_vm, "ssh-client-template");
    assert_eq!(
        plan.complements[0].states,
        vec![
            "states.split-ssh.client-files".to_string(),
            "states.split-ssh.auth-sock-profd".to_string()
        ]
    );
}

#[test]
fn client_socat_plan_needs_the_roots() {
    let user = "user".to_string();
    let states_dir = Some("/tmp/states".to_string());
    // The custom states directory lies outside the roots.
    assert!(matches!(
        maint_files_socat(&names(), &user, &None, &states_dir, &roots()),
        Err(SaltError::RootNotFound)
    ));
}

#[test]
fn rust_protocol_files_are_not_provided() {
    assert!(maint_files_rust(&names()).is_err());
}

#[test]
fn top_file_merges_targets_in_order() {
    let complements = vec![
        split_ssh::salt::SlsVmComplement {
            target_vm: "dom0".to_string(),
            states: vec!["split-ssh.split-ssh-policy".to_string()],
        },
        split_ssh::salt::SlsVmComplement {
            target_vm: "vault-ssh".to_string(),
            states: vec!["split-ssh.key-adder-vault-service".to_string()],
        },
        split_ssh::salt::SlsVmComplement {
            target_vm: "dom0".to_string(),
            states: vec!["split-ssh.more".to_string()],
        },
    ];
    assert_eq!(
        split_ssh::salt::top_file_content(&complements),
        "# Don't edit this file it will be overwritten\nbase:\n  'dom0':\n    - split-ssh.split-ssh-policy\n    - split-ssh.more\n  'vault-ssh':\n    - split-ssh.key-adder-vault-service\n"
    );
    assert_eq!(
        split_ssh::salt::target_names(&complements),
        vec!["dom0".to_string(), "vault-ssh".to_string()]
    );
}

#[test]
fn dependency_states_plan_is_exact() {
    let plan = split_ssh::make_vm::deps(&None, &names(), &roots()).unwrap();
    assert_eq!(plan.writes.len(), 2);
    assert_eq!(plan.writes[0].path, "/srv/salt/split-ssh/ssh-client-deps.sls");
    assert!(plan.writes[0].content.starts_with("{% set os = salt['grains.get']('os') %}\nclient_deps: "));
    assert_eq!(plan.writes[1].path, "/srv/salt/split-ssh/ssh-vault-deps.sls");
    assert!(plan.writes[1].content.contains("ssh-askpass"));
    assert_eq!(plan.complements[0].target_vm, "ssh-client-template");
    assert_eq!(plan.complements[0].states, vec!["split-ssh.ssh-client-deps".to_string()]);
    assert_eq!(plan.complements[1].target_vm, "vault-template");
    assert_eq!(plan.complements[1].states, vec!["split-ssh.ssh-vault-deps".to_string()]);
}
