use keep_platform::ast::ImportDecl;
use keep_platform::ast::ImportSpecifier;
use keep_platform::ast::ModuleItem;
use keep_platform::platform::contains_flag;
use keep_platform::platform::platform_flags;
use keep_platform::rewrite::KeepPlatformConfig;
use keep_platform::rewrite::KeepPlatformPatcher;
use keep_platform::rewrite::keep_platform;

fn named(local: &str) -> ImportSpecifier {
    ImportSpecifier::Named { local: local.to_string() }
}

fn import(src: &str, specifiers: Vec<ImportSpecifier>) -> ModuleItem {
    ModuleItem::Import(ImportDecl { src: src.to_string(), specifiers })
}

fn decl(name: &str, value: bool) -> ModuleItem {
    ModuleItem::FlagDecl { name: name.to_string(), value }
}

fn patcher(platform: &str) -> KeepPlatformPatcher {
    KeepPlatformPatcher { platform: platform.to_string() }
}

#[test]
fn web_scenario_reversed_decls() {
    // import { isWeb, isNode } from "universal-env"; console.log(isWeb);
    let items = vec![
        import("universal-env", vec![named("isWeb"), named("isNode")]),
        ModuleItem::Other(1),
    ];
    let out = patcher("web").fold_module_items(items);
    assert_eq!(
        out,
        vec![decl("isNode", false), decl("isWeb", true), ModuleItem::Other(1)],
    );
}

#[test]
fn disabled_config_declares_all_false() {
    let p = keep_platform(KeepPlatformConfig::Bool(false));
    assert_eq!(p.platform, "");
    let items = vec![
        import("universal-env", vec![named("isWeb"), named("isNode")]),
        ModuleItem::Other(1),
    ];
    let out = p.fold_module_items(items);
    assert_eq!(
        out,
        vec![decl("isNode", false), decl("isWeb", false), ModuleItem::Other(1)],
    );
}

#[test]
fn kraken_scenario() {
    let items = vec![import(
        "universal-env",
        vec![named("isKraken"), named("isWeb"), named("isWeex")],
    )];
    let out = patcher("kraken").fold_module_items(items);
    assert_eq!(
        out,
        vec![decl("isWeex", false), decl("isWeb", true), decl("isKraken", true)],
    );
}

#[test]
fn every_mapped_flag_true_under_its_platform() {
    let table: Vec<(&str, Vec<&str>)> = vec![
        ("web", vec!["isWeb"]),
        ("node", vec!["isNode"]),
        ("weex", vec!["isWeex"]),
        ("kraken", vec!["isKraken", "isWeb"]),
        ("wechat-miniprogram", vec!["isWeChatMiniProgram", "isWeChatMiniprogram"]),
        ("miniapp", vec!["isMiniApp"]),
        ("bytedance-microapp", vec!["isByteDanceMicroApp"]),
        ("kuaishou-miniprogram", vec!["isKuaiShouMiniProgram"]),
        ("baidu-smartprogram", vec!["isBaiduSmartProgram"]),
    ];
    for (platform, flags) in &table {
        for flag in flags {
            let items = vec![import("universal-env", vec![named(flag)])];
            let out = patcher(platform).fold_module_items(items);
            assert_eq!(out, vec![decl(flag, true)], "platform {platform}, flag {flag}");
        }
    }
    // Under an unknown platform every captured flag is false.
    for (_, flags) in &table {
        for flag in flags {
            let items = vec![import("universal-env", vec![named(flag)])];
            let out = patcher("ios").fold_module_items(items);
            assert_eq!(out, vec![decl(flag, false)], "unknown platform, flag {flag}");
        }
    }
}

#[test]
fn unmapped_name_false_under_known_platform() {
    let items = vec![import("universal-env", vec![named("isNode")])];
    let out = patcher("web").fold_module_items(items);
    assert_eq!(out, vec![decl("isNode", false)]);
}

#[test]
fn platform_flags_table_exact() {
    let cases: Vec<(&str, Vec<&str>)> = vec![
        ("web", vec!["isWeb"]),
        ("node", vec!["isNode"]),
        ("weex", vec!["isWeex"]),
        ("kraken", vec!["isKraken", "isWeb"]),
        ("wechat-miniprogram", vec!["isWeChatMiniProgram", "isWeChatMiniprogram"]),
        ("miniapp", vec!["isMiniApp"]),
        ("bytedance-microapp", vec!["isByteDanceMicroApp"]),
        ("kuaishou-miniprogram", vec!["isKuaiShouMiniProgram"]),
        ("baidu-smartprogram", vec!["isBaiduSmartProgram"]),
        ("", vec![]),
        ("Web", vec![]),
        ("unknown-platform", vec![]),
    ];
    for (platform, expected) in cases {
        let got = platform_flags(&platform.to_string());
        let expected: Vec<String> = expected.iter().map(|s| s.to_string()).collect();
        assert_eq!(got, expected, "platform {platform}");
    }
}

#[test]
fn contains_flag_looks_up_names() {
    let flags = vec!["isKraken".to_string(), "isWeb".to_string()];
    assert!(contains_flag(&flags, &"isWeb".to_string()));
    assert!(contains_flag(&flags, &"isKraken".to_string()));
    assert!(!contains_flag(&flags, &"isNode".to_string()));
    assert!(!contains_flag(&Vec::new(), &"isWeb".to_string()));
}

#[test]
fn module_without_env_import_unchanged() {
    let items = vec![
        ModuleItem::Other(1),
        import("react", vec![named("useState")]),
        decl("isWeb", true),
        ModuleItem::Other(2),
    ];
    let out = patcher("web").fold_module_items(items.clone());
    assert_eq!(out, items);
}

#[test]
fn empty_module_stays_empty() {
    let out = patcher("web").fold_module_items(Vec::new());
    assert_eq!(out, Vec::new());
}

#[test]
fn default_and_namespace_specifiers_dropped() {
    let items = vec![
        import(
            "universal-env",
            vec![ImportSpecifier::DefaultImport, ImportSpecifier::NamespaceImport],
        ),
        ModuleItem::Other(3),
    ];
    let out = patcher("web").fold_module_items(items);
    // No declaration is produced, yet the import is removed in full.
    assert_eq!(out, vec![ModuleItem::Other(3)]);
}

#[test]
fn named_specifier_kept_among_unnamed_ones() {
    let items = vec![import(
        "universal-env",
        vec![
            ImportSpecifier::DefaultImport,
            named("isWeb"),
            ImportSpecifier::NamespaceImport,
        ],
    )];
    let out = patcher("web").fold_module_items(items);
    assert_eq!(out, vec![decl("isWeb", true)]);
}

#[test]
fn multiple_env_imports_all_captured() {
    let items = vec![
        import("universal-env", vec![named("isWeb")]),
        ModuleItem::Other(1),
        import("universal-env", vec![named("isNode"), named("isWeex")]),
    ];
    let out = patcher("weex").fold_module_items(items);
    // Three named specifiers over two imports: three declarations, in
    // reverse capture order, ahead of the preserved item.
    assert_eq!(
        out,
        vec![
            decl("isWeex", true),
            decl("isNode", false),
            decl("isWeb", false),
            ModuleItem::Other(1),
        ],
    );
}

#[test]
fn other_items_preserved_in_order() {
    let items = vec![
        ModuleItem::Other(1),
        import("universal-env", vec![named("isNode")]),
        ModuleItem::Other(2),
        import("react", vec![named("useState")]),
        ModuleItem::Other(3),
    ];
    let out = patcher("node").fold_module_items(items);
    assert_eq!(
        out,
        vec![
            decl("isNode", true),
            ModuleItem::Other(1),
            ModuleItem::Other(2),
            import("react", vec![named("useState")]),
            ModuleItem::Other(3),
        ],
    );
}

#[test]
fn second_pass_is_a_no_op() {
    let items = vec![
        ModuleItem::Other(1),
        import("universal-env", vec![named("isWeb"), named("isNode")]),
        ModuleItem::Other(2),
    ];
    let p = patcher("web");
    let once = p.fold_module_items(items);
    let twice = p.fold_module_items(once.clone());
    assert_eq!(twice, once);
}

#[test]
fn wechat_lists_both_casings() {
    let items = vec![import(
        "universal-env",
        vec![named("isWeChatMiniProgram"), named("isWeChatMiniprogram")],
    )];
    let out = patcher("wechat-miniprogram").fold_module_items(items);
    assert_eq!(
        out,
        vec![decl("isWeChatMiniprogram", true), decl("isWeChatMiniProgram", true)],
    );
}

#[test]
fn config_resolution() {
    assert_eq!(KeepPlatformConfig::default(), KeepPlatformConfig::Bool(false));
    assert_eq!(keep_platform(KeepPlatformConfig::default()).platform, "");
    assert_eq!(keep_platform(KeepPlatformConfig::Bool(true)).platform, "");
    assert_eq!(
        keep_platform(KeepPlatformConfig::KeepPlatform("weex".to_string())).platform,
        "weex",
    );
    assert_eq!(KeepPlatformPatcher::default().platform, "");
}
