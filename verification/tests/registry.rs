use linux_tabs::CallTemplate;
use linux_tabs::DesktopEnvironment;
use linux_tabs::Registry;
use linux_tabs::TabAction;

#[test]
fn registry_yields_a_template_for_every_pair() {
    let environments = [DesktopEnvironment::GNOME, DesktopEnvironment::KDE];
    let actions = [TabAction::CreateTab, TabAction::SelectNextTab, TabAction::SelectPreviousTab];
    let registry = Registry::new();
    for env in environments {
        for action in actions {
            match registry.template_for(env, action) {
                CallTemplate::BusCall { destination, .. } => {
                    assert_eq!(env, DesktopEnvironment::GNOME);
                    assert_eq!(destination, "org.gnome.Shell");
                }
                CallTemplate::Command { program, .. } => {
                    assert_eq!(env, DesktopEnvironment::KDE);
                    assert_eq!(program, "qdbus");
                }
            }
        }
    }
}

#[test]
fn gnome_templates_evaluate_shell_expressions() {
    let registry = Registry::new();
    let expected = [
        (
            TabAction::CreateTab,
            "global.display.focus_window && global.display.focus_window.new_tab()",
        ),
        (
            TabAction::SelectNextTab,
            "global.display.focus_window && global.display.focus_window.switch_to_next_tab()",
        ),
        (
            TabAction::SelectPreviousTab,
            "global.display.focus_window && global.display.focus_window.switch_to_previous_tab()",
        ),
    ];
    for (action, expression) in expected {
        match registry.template_for(DesktopEnvironment::GNOME, action) {
            CallTemplate::BusCall { destination, object_path, method, payload } => {
                assert_eq!(destination, "org.gnome.Shell");
                assert_eq!(object_path, "/org/gnome/Shell");
                assert_eq!(method, "org.gnome.Shell.Eval");
                assert_eq!(payload, expression);
            }
            CallTemplate::Command { .. } => panic!("GNOME template must be a bus call"),
        }
    }
}

#[test]
fn kde_templates_address_the_konsole_window() {
    let registry = Registry::new();
    let expected = [
        (TabAction::CreateTab, "org.kde.KMainWindow.newTab"),
        (TabAction::SelectNextTab, "org.kde.KMainWindow.nextTab"),
        (TabAction::SelectPreviousTab, "org.kde.KMainWindow.previousTab"),
    ];
    for (action, method) in expected {
        match registry.template_for(DesktopEnvironment::KDE, action) {
            CallTemplate::Command { program, args } => {
                assert_eq!(program, "qdbus");
                assert_eq!(args.len(), 3);
                assert_eq!(args[0], "org.kde.konsole");
                assert_eq!(args[1], "/Konsole");
                assert_eq!(args[2], method);
            }
            CallTemplate::BusCall { .. } => panic!("KDE template must be a direct command"),
        }
    }
}

#[test]
fn bus_call_renders_as_gdbus_invocation() {
    let registry = Registry::new();
    let template = registry.template_for(DesktopEnvironment::GNOME, TabAction::CreateTab);
    let (program, args) = template.command_line();
    assert_eq!(program, "gdbus");
    assert_eq!(
        args,
        vec![
            "call",
            "--session",
            "--dest",
            "org.gnome.Shell",
            "--object-path",
            "/org/gnome/Shell",
            "--method",
            "org.gnome.Shell.Eval",
            "global.display.focus_window && global.display.focus_window.new_tab()",
        ]
    );
}

#[test]
fn direct_command_renders_unchanged() {
    let registry = Registry::new();
    let template = registry.template_for(DesktopEnvironment::KDE, TabAction::SelectNextTab);
    let (program, args) = template.command_line();
    assert_eq!(program, "qdbus");
    assert_eq!(args, vec!["org.kde.konsole", "/Konsole", "org.kde.KMainWindow.nextTab"]);
}

#[test]
fn probe_locates_the_designated_tool() {
    let (program, args) = DesktopEnvironment::GNOME.probe_command();
    assert_eq!(program, "which");
    assert_eq!(args, vec!["gdbus"]);
    let (program, args) = DesktopEnvironment::KDE.probe_command();
    assert_eq!(program, "which");
    assert_eq!(args, vec!["qdbus"]);
}

#[test]
fn names_and_tools_are_fixed() {
    assert_eq!(DesktopEnvironment::GNOME.name(), "GNOME");
    assert_eq!(DesktopEnvironment::KDE.name(), "KDE");
    assert_eq!(DesktopEnvironment::GNOME.tool(), "gdbus");
    assert_eq!(DesktopEnvironment::KDE.tool(), "qdbus");
    assert_eq!(TabAction::CreateTab.phrase(), "tab creation");
    assert_eq!(TabAction::SelectNextTab.phrase(), "next tab selection");
    assert_eq!(TabAction::SelectPreviousTab.phrase(), "previous tab selection");
}
