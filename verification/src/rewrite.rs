use vstd::prelude::*;

use crate::ast::ImportSpecifier;
use crate::ast::ModuleItem;
use crate::ast::captured;
use crate::ast::is_env_import;
use crate::ast::item_locals;
use crate::ast::named_locals;
use crate::ast::passthrough;
use crate::ast::universal_env;
use crate::platform::contains_flag;
use crate::platform::platform_flags;
use crate::platform::platform_flags_spec;

verus! {

/// The rewriter. `platform` selects which flag names are active; every
/// captured binding whose name the platform does not list becomes `false`.
#[derive(Debug, Clone)]
pub struct KeepPlatformPatcher {
    pub platform: String,
}

/// The caller's configuration: either a switch (where `false`, and also
/// `true`, leave the platform unset and thereby all flags inactive) or the
/// platform name to keep.
#[derive(Debug, Clone, PartialEq, Eq)]
pub enum KeepPlatformConfig {
    Bool(bool),
    KeepPlatform(String),
}

impl Default for KeepPlatformConfig {
    /// The default configuration disables the pass.
    fn default() -> (result: Self)
        ensures
            result == KeepPlatformConfig::Bool(false),
    {
        KeepPlatformConfig::Bool(false)
    }
}

impl Default for KeepPlatformPatcher {
    /// The default patcher has no platform set: every flag is inactive.
    fn default() -> (result: Self)
        ensures
            result.platform@ == Seq::<char>::empty(),
    {
        KeepPlatformPatcher { platform: String::new() }
    }
}

/// The platform a configuration resolves to: the named platform when one is
/// given, otherwise the empty string (the disabled state).
pub open spec fn config_platform(options: KeepPlatformConfig) -> Seq<char> {
    match options {
        KeepPlatformConfig::KeepPlatform(platform) => platform@,
        KeepPlatformConfig::Bool(_) => Seq::empty(),
    }
}

/// Build the rewriter for a configuration.
pub fn keep_platform(options: KeepPlatformConfig) -> (patcher: KeepPlatformPatcher)
    ensures
        patcher.platform@ == config_platform(options),
{
    let platform: String = match options {
        KeepPlatformConfig::KeepPlatform(platform) => platform,
        KeepPlatformConfig::Bool(_) => String::new(),
    };
    KeepPlatformPatcher { platform }
}

/// Whether `item` is a synthesized declaration of `name` whose boolean value
/// says that `name` is one of `flags`.
pub open spec fn is_flag_decl(item: ModuleItem, name: Seq<char>, flags: Seq<Seq<char>>) -> bool {
    declares_flag(item, name, flags.contains(name))
}

/// Whether `item` is a `var`-kind declaration binding `name` to the boolean
/// literal `value`.
pub open spec fn declares_flag(item: ModuleItem, name: Seq<char>, value: bool) -> bool {
    match item {
        ModuleItem::FlagDecl { name: n, value: v } => n@ == name && v == value,
        _ => false,
    }
}

/// What the rewrite returns for input `items` under `platform`: first one
/// boolean declaration per captured name, in reverse capture order (each new
/// declaration was inserted at the front), then every non-reserved item in
/// original relative order.
pub open spec fn rewrite_post(items: Seq<ModuleItem>, platform: Seq<char>, out: Seq<ModuleItem>) -> bool {
    let names = captured(items);
    let kept = passthrough(items);
    let flags = platform_flags_spec(platform);
    &&& out.len() == names.len() + kept.len()
    &&& (forall|i: int|
        0 <= i < names.len() ==> is_flag_decl(
            #[trigger] out[i],
            names[names.len() - 1 - i],
            flags,
        ))
    &&& (forall|i: int| 0 <= i < kept.len() ==> #[trigger] out[names.len() + i] == kept[i])
}

impl KeepPlatformPatcher {
    /// Rewrite a module's top-level items: remove every import from the
    /// reserved module, capture the local names its named specifiers bound,
    /// and insert, each at the front in turn, one `var`-kind declaration per
    /// captured name binding it to a boolean literal that is true exactly
    /// when the configured platform lists the name as a flag.
    pub fn fold_module_items(&self, items: Vec<ModuleItem>) -> (out: Vec<ModuleItem>)
        ensures
            rewrite_post(items@, self.platform@, out@),
    {
        let ghost orig: Seq<ModuleItem> = items@;
        // Flag names of the configured platform, such as ["isWeb"].
        let platform_flag_names: Vec<String> = platform_flags(&self.platform);
        let marker: String = "universal-env".to_owned();
        let mut remaining: Vec<ModuleItem> = items;
        let mut new_module_items: Vec<ModuleItem> = Vec::new();
        // Local names bound by named specifiers of reserved-module imports.
        let mut env_variables: Vec<String> = Vec::new();
        proof {
            assert(orig.skip(0) =~= orig);
            assert(env_variables.deep_view() =~= captured(orig.take(0)));
        }
        while remaining.len() > 0
            invariant
                remaining@.len() <= orig.len(),
                remaining@ == orig.skip(orig.len() - remaining@.len()),
                new_module_items@ == passthrough(orig.take(orig.len() - remaining@.len())),
                env_variables.deep_view() == captured(orig.take(orig.len() - remaining@.len())),
                marker@ == universal_env(),
            decreases remaining@.len(),
        {
            let ghost done: int = orig.len() - remaining@.len();
            let module_item = remaining.remove(0);
            proof {
                assert(module_item == orig.skip(done)[0]);
                assert(module_item == orig[done]);
                assert(remaining@ =~= orig.skip(done + 1));
                assert(orig.take(done + 1).drop_last() =~= orig.take(done));
                assert(orig.take(done + 1).last() == orig[done]);
            }
            match module_item {
                ModuleItem::Import(import_decl) => {
                    if import_decl.src == marker {
                        proof {
                            assert(is_env_import(orig[done]));
                            assert(item_locals(orig[done]) == named_locals(
                                import_decl.specifiers@,
                            ));
                        }
                        let ghost specs: Seq<ImportSpecifier> = import_decl.specifiers@;
                        let mut specifiers = import_decl.specifiers;
                        while specifiers.len() > 0
                            invariant
                                specifiers@.len() <= specs.len(),
                                specifiers@ == specs.skip(specs.len() - specifiers@.len()),
                                env_variables.deep_view() == captured(orig.take(done)) + named_locals(
                                    specs.take(specs.len() - specifiers@.len()),
                                ),
                            decreases specifiers@.len(),
                        {
                            let ghost seen: int = specs.len() - specifiers@.len();
                            let ghost env_before: Seq<Seq<char>> = env_variables.deep_view();
                            let specifier = specifiers.remove(0);
                            proof {
                                assert(specifier == specs.skip(seen)[0]);
                                assert(specifier == specs[seen]);
                                assert(specifiers@ =~= specs.skip(seen + 1));
                                assert(specs.take(seen + 1).drop_last() =~= specs.take(seen));
                                assert(specs.take(seen + 1).last() == specs[seen]);
                            }
                            match specifier {
                                ImportSpecifier::Named { local } => {
                                    let ghost local_name: Seq<char> = local@;
                                    env_variables.push(local);
                                    proof {
                                        assert(env_variables.deep_view() =~= env_before.push(
                                            local_name,
                                        ));
                                        assert(named_locals(specs.take(seen + 1)) =~= named_locals(
                                            specs.take(seen),
                                        ).push(local_name));
                                    }
                                },
                                ImportSpecifier::DefaultImport => {
                                    proof {
                                        assert(named_locals(specs.take(seen + 1)) =~= named_locals(
                                            specs.take(seen),
                                        ));
                                    }
                                },
                                ImportSpecifier::NamespaceImport => {
                                    proof {
                                        assert(named_locals(specs.take(seen + 1)) =~= named_locals(
                                            specs.take(seen),
                                        ));
                                    }
                                },
                            }
                        }
                        proof {
                            assert(specs.take(specs.len() as int) =~= specs);
                            assert(env_variables.deep_view() =~= captured(orig.take(done + 1)));
                            assert(new_module_items@ =~= passthrough(orig.take(done + 1)));
                        }
                    } else {
                        proof {
                            assert(!is_env_import(orig[done]));
                            assert(item_locals(orig[done]) =~= Seq::<Seq<char>>::empty());
                        }
                        new_module_items.push(ModuleItem::Import(import_decl));
                        proof {
                            assert(env_variables.deep_view() =~= captured(orig.take(done + 1)));
                            assert(new_module_items@ =~= passthrough(orig.take(done + 1)));
                        }
                    }
                },
                ModuleItem::FlagDecl { name, value } => {
                    new_module_items.push(ModuleItem::FlagDecl { name, value });
                    proof {
                        assert(env_variables.deep_view() =~= captured(orig.take(done + 1)));
                        assert(new_module_items@ =~= passthrough(orig.take(done + 1)));
                    }
                },
                ModuleItem::Other(handle) => {
                    new_module_items.push(ModuleItem::Other(handle));
                    proof {
                        assert(env_variables.deep_view() =~= captured(orig.take(done + 1)));
                        assert(new_module_items@ =~= passthrough(orig.take(done + 1)));
                    }
                },
            }
        }
        proof {
            assert(orig.take(orig.len() as int) =~= orig);
        }
        let ghost names: Seq<Seq<char>> = captured(orig);
        let ghost kept: Seq<ModuleItem> = passthrough(orig);
        proof {
            assert(names.skip(0) =~= names);
        }
        // Each captured name is declared at the front in turn, so the
        // declarations end up in reverse capture order at the very top.
        while env_variables.len() > 0
            invariant
                env_variables@.len() <= names.len(),
                env_variables.deep_view() == names.skip(names.len() - env_variables@.len()),
                new_module_items@.len() == (names.len() - env_variables@.len()) + kept.len(),
                forall|i: int|
                    0 <= i < names.len() - env_variables@.len() ==> is_flag_decl(
                        #[trigger] new_module_items@[i],
                        names[(names.len() - env_variables@.len()) - 1 - i],
                        platform_flags_spec(self.platform@),
                    ),
                forall|i: int|
                    0 <= i < kept.len() ==> #[trigger] new_module_items@[(names.len()
                        - env_variables@.len()) + i] == kept[i],
                platform_flag_names.deep_view() == platform_flags_spec(self.platform@),
            decreases env_variables@.len(),
        {
            let ghost declared: int = names.len() - env_variables@.len();
            let ghost out_before: Seq<ModuleItem> = new_module_items@;
            let ghost env_vec_before: Seq<String> = env_variables@;
            let ghost env_dv_before: Seq<Seq<char>> = env_variables.deep_view();
            let env_variable = env_variables.remove(0);
            proof {
                assert(env_variable@ == env_dv_before[0]);
                assert(env_variable@ == names[declared]);
                assert forall|i: int|
                    0 <= i < env_variables.deep_view().len() implies env_variables.deep_view()[i]
                    == env_dv_before[i + 1] by {
                    assert(env_variables@[i] == env_vec_before[i + 1]);
                }
                assert(env_variables.deep_view() =~= names.skip(declared + 1));
            }
            let value = contains_flag(&platform_flag_names, &env_variable);
            new_module_items.insert(0, ModuleItem::FlagDecl { name: env_variable, value });
            proof {
                assert forall|i: int| 0 <= i < declared + 1 implies is_flag_decl(
                    #[trigger] new_module_items@[i],
                    names[declared - i],
                    platform_flags_spec(self.platform@),
                ) by {
                    if i > 0 {
                        assert(new_module_items@[i] == out_before[i - 1]);
                    }
                }
                assert forall|i: int| 0 <= i < kept.len() implies #[trigger] new_module_items@[(
                declared + 1) + i] == kept[i] by {
                    assert(new_module_items@[(declared + 1) + i] == out_before[declared + i]);
                }
            }
        }
        new_module_items
    }
}

} // verus!
