use cmd_registry::capability::CapabilitySet;
use cmd_registry::clap_schema::{clap_command, clap_subcommand_for};
use cmd_registry::catalog::{check_catalog, Alias, CatalogError, CommandKind, Descriptor, Handler, HelpCategory};
use cmd_registry::defaults::{command_name_str, default_catalog, default_schema, descriptor, kind_at, KIND_COUNT};
use cmd_registry::deprecation::{renamed_cmd, Step};
use cmd_registry::schema::{build_schema, run_command, ParsedCommand, ParseError, Schema};

fn s(x: &str) -> String {
    x.to_string()
}

fn strings(xs: &[&str]) -> Vec<String> {
    xs.iter().map(|x| x.to_string()).collect()
}

fn plain(name: &str, kind: CommandKind) -> Descriptor {
    Descriptor {
        name: s(name),
        aliases: Vec::new(),
        hidden: false,
        category: None,
        requires: None,
        handler: Handler::Direct(kind),
    }
}

fn entries_named(schema: &Schema, name: &str) -> usize {
    schema.entries.iter().filter(|d| d.name == name).count()
}

fn answering(schema: &Schema, name: &str) -> usize {
    schema
        .entries
        .iter()
        .filter(|d| d.name == name || d.aliases.iter().any(|a| a.name == name))
        .count()
}

#[test]
fn verify_app() {
    assert_eq!(check_catalog(&default_catalog()), Ok(()));
    let all = default_schema(&CapabilitySet::all());
    assert_eq!(check_catalog(&all.entries), Ok(()));
    assert_eq!(check_catalog(&default_schema(&CapabilitySet::none()).entries), Ok(()));
}

#[test]
fn default_catalog_lists_every_command_once_in_order() {
    let c = default_catalog();
    assert_eq!(c.len(), KIND_COUNT);
    assert_eq!(c.len(), 47);
    for i in 0..KIND_COUNT {
        assert_eq!(c[i].handler, Handler::Direct(kind_at(i)));
        assert_eq!(c[i].name, command_name_str(kind_at(i)));
    }
    assert_eq!(c[0].name, "abandon");
    assert_eq!(c[36].name, "simplify-parents");
    assert_eq!(c[46].name, "workspace");
}

#[test]
fn default_catalog_metadata() {
    let evolog = descriptor(CommandKind::Evolog);
    assert_eq!(
        evolog.aliases,
        vec![
            Alias { name: s("obslog"), visible: false },
            Alias { name: s("evolution-log"), visible: true }
        ]
    );
    assert_eq!(evolog.category, Some(HelpCategory::ReviewCommands));
    let op = descriptor(CommandKind::Operation);
    assert_eq!(op.aliases, vec![Alias { name: s("op"), visible: true }]);
    assert_eq!(op.category, Some(HelpCategory::OperationLog));
    assert!(descriptor(CommandKind::Run).hidden);
    assert!(!descriptor(CommandKind::Log).hidden);
    assert_eq!(descriptor(CommandKind::Log).category, Some(HelpCategory::CommonCommands));
    assert_eq!(descriptor(CommandKind::Diffedit).category, Some(HelpCategory::RewritingChanges));
    assert_eq!(descriptor(CommandKind::Help).category, None);
    assert_eq!(descriptor(CommandKind::Git).category, Some(HelpCategory::GitIntegration));
    assert_eq!(descriptor(CommandKind::Bench).category, Some(HelpCategory::Development));
    assert_eq!(descriptor(CommandKind::Git).requires, Some(cmd_registry::Capability::Git));
    assert_eq!(descriptor(CommandKind::Gerrit).requires, Some(cmd_registry::Capability::Git));
    assert_eq!(descriptor(CommandKind::Bench).requires, Some(cmd_registry::Capability::Bench));
    assert_eq!(descriptor(CommandKind::Status).requires, None);
}

#[test]
fn help_headings() {
    assert_eq!(HelpCategory::CommonCommands.heading(), "Common Commands");
    assert_eq!(HelpCategory::References.heading(), "References (Bookmarks & Tags)");
    assert_eq!(HelpCategory::WorkspaceManagement.heading(), "Workspace");
    assert_eq!(HelpCategory::ConfigurationHelp.heading(), "Configuration & Help");
}

#[test]
fn enabled_commands_have_one_entry_and_parse() {
    let schema = default_schema(&CapabilitySet::all());
    assert_eq!(schema.entries.len(), 47);
    for d in default_catalog() {
        assert_eq!(entries_named(&schema, &d.name), 1);
        assert_eq!(answering(&schema, &d.name), 1);
        let args = strings(&["-r", "@"]);
        let cmd = schema.parse(&d.name, args.clone()).unwrap();
        assert_eq!(schema.entries[cmd.entry].name, d.name);
        assert_eq!(schema.entries[cmd.entry].handler, d.handler);
        assert_eq!(cmd.args, args);
    }
}

#[test]
fn disabled_commands_are_absent() {
    let schema = default_schema(&CapabilitySet::none());
    assert_eq!(schema.entries.len(), 44);
    for name in ["git", "gerrit", "bench"] {
        assert_eq!(answering(&schema, name), 0);
        assert_eq!(
            schema.parse(&s(name), Vec::new()),
            Err(ParseError::Unregistered { name: s(name) })
        );
    }
    assert_eq!(
        schema.parse(&s("frobnicate"), Vec::new()),
        Err(ParseError::Unregistered { name: s("frobnicate") })
    );
    let git_only = default_schema(&CapabilitySet { git: true, bench: false });
    assert_eq!(git_only.entries.len(), 46);
    assert!(git_only.parse(&s("git"), Vec::new()).is_ok());
    assert!(git_only.parse(&s("bench"), Vec::new()).is_err());
    let bench_only = default_schema(&CapabilitySet { git: false, bench: true });
    assert_eq!(bench_only.entries.len(), 45);
    assert!(bench_only.parse(&s("bench"), Vec::new()).is_ok());
}

#[test]
fn aliases_parse_like_canonical_names() {
    let schema = default_schema(&CapabilitySet::all());
    let args = strings(&["--limit", "3"]);
    let canonical = schema.parse(&s("evolog"), args.clone()).unwrap();
    assert_eq!(schema.parse(&s("obslog"), args.clone()).unwrap(), canonical);
    assert_eq!(schema.parse(&s("evolution-log"), args.clone()).unwrap(), canonical);
    let op = schema.parse(&s("operation"), Vec::new()).unwrap();
    assert_eq!(schema.parse(&s("op"), Vec::new()).unwrap(), op);
    assert_ne!(op.entry, canonical.entry);
}

#[test]
fn hidden_command_stays_matchable() {
    let schema = default_schema(&CapabilitySet::all());
    let cmd = schema.parse(&s("run"), Vec::new()).unwrap();
    assert!(schema.entries[cmd.entry].hidden);
    assert_eq!(schema.dispatch(cmd), vec![Step::Invoke { handler: CommandKind::Run, args: Vec::new() }]);
}

#[test]
fn dispatch_reaches_every_handler() {
    let schema = default_schema(&CapabilitySet::all());
    for k in 0..schema.entries.len() {
        let args = strings(&["x"]);
        let steps = schema.dispatch(ParsedCommand { entry: k, args: args.clone() });
        assert_eq!(steps, vec![Step::Invoke { handler: kind_at(k), args }]);
    }
}

#[test]
fn renamed_command_warns_then_runs() {
    let h = renamed_cmd("status", "show", CommandKind::Show);
    assert_eq!(
        h,
        Handler::Renamed { old_name: s("status"), new_name: s("show"), target: CommandKind::Show }
    );
    let args = strings(&["-r", "@-"]);
    let steps = h.invocation(args.clone());
    assert_eq!(steps.len(), 3);
    match &steps[0] {
        Step::Warn(line) => {
            assert!(line.contains("status") && line.contains("show"));
            assert_eq!(line, "`jj status` is deprecated; use `jj show` instead, which is equivalent");
        }
        other => panic!("expected a warning, got {:?}", other),
    }
    match &steps[1] {
        Step::Warn(line) => {
            assert!(line.contains("future"));
            assert_eq!(
                line,
                "`jj status` will be removed in a future version, and this will be a hard error"
            );
        }
        other => panic!("expected a warning, got {:?}", other),
    }
    assert_eq!(steps[2], Step::Invoke { handler: CommandKind::Show, args });
}

#[test]
fn direct_handler_only_invokes() {
    let steps = Handler::Direct(CommandKind::Log).invocation(strings(&["-n", "5"]));
    assert_eq!(steps, vec![Step::Invoke { handler: CommandKind::Log, args: strings(&["-n", "5"]) }]);
}

#[test]
fn self_check_rejects_shared_canonical_name() {
    let c = vec![plain("log", CommandKind::Log), plain("log", CommandKind::Show)];
    assert_eq!(check_catalog(&c), Err(CatalogError::SharedName { first: 0, second: 1 }));
}

#[test]
fn self_check_rejects_alias_shared_with_name() {
    let mut show = plain("show", CommandKind::Show);
    show.aliases.push(Alias { name: s("log"), visible: false });
    let c = vec![plain("status", CommandKind::Status), plain("log", CommandKind::Log), show];
    assert_eq!(check_catalog(&c), Err(CatalogError::SharedName { first: 1, second: 2 }));
}

#[test]
fn self_check_rejects_empty_and_repeated_names() {
    let c = vec![plain("log", CommandKind::Log), plain("", CommandKind::Show)];
    assert_eq!(check_catalog(&c), Err(CatalogError::EmptyName { descriptor: 1 }));
    let mut op = plain("operation", CommandKind::Operation);
    op.aliases.push(Alias { name: s("op"), visible: true });
    op.aliases.push(Alias { name: s("op"), visible: false });
    assert_eq!(check_catalog(&vec![op.clone()]), Err(CatalogError::RepeatedName { descriptor: 0 }));
    let mut empty_alias = plain("new", CommandKind::New);
    empty_alias.aliases.push(Alias { name: s(""), visible: true });
    assert_eq!(check_catalog(&vec![empty_alias]), Err(CatalogError::EmptyName { descriptor: 0 }));
    let mut self_alias = plain("undo", CommandKind::Undo);
    self_alias.aliases.push(Alias { name: s("undo"), visible: true });
    assert_eq!(check_catalog(&vec![self_alias]), Err(CatalogError::RepeatedName { descriptor: 0 }));
    assert_eq!(check_catalog(&Vec::new()), Ok(()));
}

#[test]
fn end_to_end_renamed_command() {
    let catalog = vec![
        plain("log", CommandKind::Log),
        plain("show", CommandKind::Show),
        Descriptor {
            name: s("old"),
            aliases: Vec::new(),
            hidden: true,
            category: None,
            requires: None,
            handler: renamed_cmd("old", "new", CommandKind::New),
        },
    ];
    assert_eq!(check_catalog(&catalog), Ok(()));
    let schema = build_schema(catalog, &CapabilitySet::none());
    let argv = strings(&["old", "--flag"]);
    let steps = run_command(&schema, &argv[0], argv[1..].to_vec()).unwrap();
    assert_eq!(steps.len(), 3);
    match (&steps[0], &steps[1]) {
        (Step::Warn(first), Step::Warn(second)) => {
            assert!(first.contains("old") && first.contains("new"));
            assert!(second.contains("old") && second.contains("future"));
        }
        other => panic!("expected two warnings, got {:?}", other),
    }
    assert_eq!(steps[2], Step::Invoke { handler: CommandKind::New, args: strings(&["--flag"]) });
    assert_eq!(
        run_command(&schema, &s("new"), Vec::new()),
        Err(ParseError::Unregistered { name: s("new") })
    );
}

#[test]
fn schema_keeps_catalog_order_and_drops_gated_commands() {
    let mut gated = plain("git", CommandKind::Git);
    gated.requires = Some(cmd_registry::Capability::Git);
    let catalog = vec![plain("log", CommandKind::Log), gated, plain("show", CommandKind::Show)];
    let off = build_schema(catalog.clone(), &CapabilitySet::none());
    assert_eq!(off.entries, vec![catalog[0].clone(), catalog[2].clone()]);
    let on = build_schema(catalog.clone(), &CapabilitySet::all());
    assert_eq!(on.entries, catalog);
    assert!(build_schema(Vec::new(), &CapabilitySet::all()).entries.is_empty());
}

#[test]
fn capability_set_permits() {
    let none = CapabilitySet::none();
    assert!(none.permits(None));
    assert!(!none.permits(Some(cmd_registry::Capability::Git)));
    assert!(!none.permits(Some(cmd_registry::Capability::Bench)));
    let all = CapabilitySet::all();
    assert!(all.permits(Some(cmd_registry::Capability::Git)));
    assert!(all.permits(Some(cmd_registry::Capability::Bench)));
}

#[test]
fn descriptor_answers_to_its_names() {
    let d = descriptor(CommandKind::Evolog);
    assert!(d.answers_to(&s("evolog")));
    assert!(d.answers_to(&s("obslog")));
    assert!(d.answers_to(&s("evolution-log")));
    assert!(!d.answers_to(&s("log")));
    assert_eq!(d.name_at(2), "evolution-log");
}

fn clap_for(schema: &Schema) -> clap::Command {
    clap_command(clap::Command::new("jj").disable_help_subcommand(true), schema)
}

#[test]
fn clap_command_holds_one_subcommand_per_entry() {
    let schema = default_schema(&CapabilitySet::all());
    let app = clap_for(&schema);
    app.clone().debug_assert();
    let names: Vec<String> = app.get_subcommands().map(|c| c.get_name().to_string()).collect();
    let expected: Vec<String> = schema.entries.iter().map(|d| d.name.clone()).collect();
    assert_eq!(names, expected);
    let evolog = app.find_subcommand("evolog").unwrap();
    assert_eq!(evolog.get_all_aliases().collect::<Vec<_>>(), vec!["obslog", "evolution-log"]);
    assert_eq!(evolog.get_visible_aliases().collect::<Vec<_>>(), vec!["evolution-log"]);
    let op = app.find_subcommand("operation").unwrap();
    assert_eq!(op.get_visible_aliases().collect::<Vec<_>>(), vec!["op"]);
    assert_eq!(app.find_subcommand("log").unwrap().get_all_aliases().count(), 0);
}

#[test]
fn clap_subcommand_for_one_descriptor() {
    let sub = clap_subcommand_for(&descriptor(CommandKind::Evolog));
    assert_eq!(sub.get_name(), "evolog");
    assert_eq!(sub.get_all_aliases().collect::<Vec<_>>(), vec!["obslog", "evolution-log"]);
    assert_eq!(sub.get_subcommands().count(), 0);
}

#[test]
fn clap_matches_aliases_to_canonical_names() {
    let schema = default_schema(&CapabilitySet::all());
    let app = clap_for(&schema);
    for alias in ["obslog", "evolution-log", "evolog"] {
        let m = app.clone().try_get_matches_from(["jj", alias]).unwrap();
        assert_eq!(m.subcommand_name(), Some("evolog"));
    }
    let m = app.clone().try_get_matches_from(["jj", "op"]).unwrap();
    assert_eq!(m.subcommand_name(), Some("operation"));
}

#[test]
fn clap_rejects_disabled_commands_like_unknown_ones() {
    let schema = default_schema(&CapabilitySet::none());
    let app = clap_for(&schema).subcommand_required(true);
    let unknown = app.clone().try_get_matches_from(["jj", "frobnicate"]).unwrap_err().kind();
    for name in ["git", "gerrit", "bench"] {
        let err = app.clone().try_get_matches_from(["jj", name]).unwrap_err();
        assert_eq!(err.kind(), unknown);
    }
    assert!(clap_for(&default_schema(&CapabilitySet::all()))
        .try_get_matches_from(["jj", "git"])
        .is_ok());
}

#[test]
fn clap_command_keeps_root_subcommands() {
    let root = clap::Command::new("jj").subcommand(clap::Command::new("extra"));
    let catalog = vec![plain("log", CommandKind::Log)];
    let app = clap_command(root, &build_schema(catalog, &CapabilitySet::none()));
    assert_eq!(app.get_name(), "jj");
    let names: Vec<&str> = app.get_subcommands().map(|c| c.get_name()).collect();
    assert_eq!(names, vec!["extra", "log"]);
}
