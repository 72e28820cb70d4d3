use vstd::prelude::*;

use crate::ast::ImportSpecifier;
use crate::ast::ModuleItem;
use crate::ast::captured;
use crate::ast::has_named_specifier;
use crate::ast::is_env_import;
use crate::ast::item_locals;
use crate::ast::named_locals;
use crate::ast::passthrough;
use crate::platform::platform_flags_spec;
use crate::rewrite::declares_flag;
use crate::rewrite::rewrite_post;

verus! {

/// Capture and passthrough both distribute over concatenation, so every
/// reserved-module import of a module contributes all of its named locals,
/// in order, wherever it stands; with the length clause of `rewrite_post`,
/// the count of synthesized declarations equals the total count of named
/// specifiers across all reserved-module imports.
pub proof fn lemma_scan_append(a: Seq<ModuleItem>, b: Seq<ModuleItem>)
    ensures
        captured(a + b) == captured(a) + captured(b),
        passthrough(a + b) == passthrough(a) + passthrough(b),
    decreases b.len(),
{
    if b.len() == 0 {
        assert(a + b =~= a);
        assert(captured(a) + captured(b) =~= captured(a));
        assert(passthrough(a) + passthrough(b) =~= passthrough(a));
    } else {
        lemma_scan_append(a, b.drop_last());
        assert((a + b).drop_last() =~= a + b.drop_last());
        assert((a + b).last() == b.last());
        assert(captured(a + b) =~= captured(a) + captured(b));
        assert(passthrough(a + b) =~= passthrough(a) + passthrough(b));
    }
}

/// A module without a reserved-module import captures nothing and passes
/// every item through unchanged.
pub proof fn lemma_scan_no_env_import(items: Seq<ModuleItem>)
    requires
        forall|i: int| 0 <= i < items.len() ==> !is_env_import(#[trigger] items[i]),
    ensures
        captured(items) == Seq::<Seq<char>>::empty(),
        passthrough(items) == items,
    decreases items.len(),
{
    if items.len() > 0 {
        lemma_scan_no_env_import(items.drop_last());
        assert(items.last() == items[items.len() - 1]);
        assert(item_locals(items.last()) =~= Seq::<Seq<char>>::empty());
        assert(captured(items) =~= Seq::<Seq<char>>::empty());
        assert(passthrough(items) =~= items);
    }
}

/// The rewrite of a module without a reserved-module import is the module
/// itself: same items, same order.
pub proof fn lemma_no_env_import_unchanged(
    items: Seq<ModuleItem>,
    platform: Seq<char>,
    out: Seq<ModuleItem>,
)
    requires
        rewrite_post(items, platform, out),
        forall|i: int| 0 <= i < items.len() ==> !is_env_import(#[trigger] items[i]),
    ensures
        out == items,
{
    lemma_scan_no_env_import(items);
    assert forall|i: int| 0 <= i < items.len() implies out[i] == items[i] by {
        assert(out[captured(items).len() + i] == passthrough(items)[i]);
    }
    assert(out =~= items);
}

/// A captured name is declared with value `true` exactly when the
/// platform's mapping lists it as a flag. The declaration for the `i`-th
/// captured name stands at the mirrored position, since each one was
/// inserted at the front in turn.
pub proof fn lemma_captured_flag_value(
    items: Seq<ModuleItem>,
    platform: Seq<char>,
    out: Seq<ModuleItem>,
    i: int,
)
    requires
        rewrite_post(items, platform, out),
        0 <= i < captured(items).len(),
    ensures
        declares_flag(
            out[captured(items).len() - 1 - i],
            captured(items)[i],
            platform_flags_spec(platform).contains(captured(items)[i]),
        ),
{
    assert(captured(items).len() - 1 - (captured(items).len() - 1 - i) == i);
}

/// Under a platform whose mapping lists the captured name, its declaration
/// reads `true`.
pub proof fn lemma_mapped_flag_true(
    items: Seq<ModuleItem>,
    platform: Seq<char>,
    out: Seq<ModuleItem>,
    i: int,
)
    requires
        rewrite_post(items, platform, out),
        0 <= i < captured(items).len(),
        platform_flags_spec(platform).contains(captured(items)[i]),
    ensures
        declares_flag(out[captured(items).len() - 1 - i], captured(items)[i], true),
{
    lemma_captured_flag_value(items, platform, out, i);
}

/// Under a platform whose mapping does not list the captured name (an
/// unknown platform among them), its declaration reads `false`.
pub proof fn lemma_unmapped_flag_false(
    items: Seq<ModuleItem>,
    platform: Seq<char>,
    out: Seq<ModuleItem>,
    i: int,
)
    requires
        rewrite_post(items, platform, out),
        0 <= i < captured(items).len(),
        !platform_flags_spec(platform).contains(captured(items)[i]),
    ensures
        declares_flag(out[captured(items).len() - 1 - i], captured(items)[i], false),
{
    lemma_captured_flag_value(items, platform, out, i);
}

/// Specifiers that bind no named local yield no names.
pub proof fn lemma_no_named_no_locals(specs: Seq<ImportSpecifier>)
    requires
        !has_named_specifier(specs),
    ensures
        named_locals(specs) == Seq::<Seq<char>>::empty(),
    decreases specs.len(),
{
    if specs.len() > 0 {
        assert(!(specs[specs.len() - 1] matches ImportSpecifier::Named { .. }));
        assert(forall|j: int|
            0 <= j < specs.len() - 1 ==> specs.drop_last()[j] == #[trigger] specs[j]);
        lemma_no_named_no_locals(specs.drop_last());
        assert(named_locals(specs) =~= Seq::<Seq<char>>::empty());
    }
}

/// No reserved-module import survives the scan: every passed-through item
/// is a non-reserved one, and it comes from the input.
pub proof fn lemma_passthrough_no_env_import(items: Seq<ModuleItem>)
    ensures
        forall|i: int|
            0 <= i < passthrough(items).len() ==> !is_env_import(#[trigger] passthrough(items)[i]),
    decreases items.len(),
{
    if items.len() > 0 {
        lemma_passthrough_no_env_import(items.drop_last());
        let p = passthrough(items);
        let q = passthrough(items.drop_last());
        if !is_env_import(items.last()) {
            assert forall|i: int| 0 <= i < p.len() implies !is_env_import(#[trigger] p[i]) by {
                if i < q.len() {
                    assert(p[i] == q[i]);
                } else {
                    assert(p[i] == items.last());
                }
            }
        }
    }
}

/// Reserved-module imports whose specifiers are all default or namespace
/// ones produce no declaration, yet the imports are still removed in full:
/// the output is exactly the passed-through remainder.
pub proof fn lemma_unnamed_specifiers_yield_no_decl(
    items: Seq<ModuleItem>,
    platform: Seq<char>,
    out: Seq<ModuleItem>,
)
    requires
        rewrite_post(items, platform, out),
        forall|i: int|
            0 <= i < items.len() ==> match #[trigger] items[i] {
                ModuleItem::Import(d) => is_env_import(items[i]) ==> !has_named_specifier(
                    d.specifiers@,
                ),
                _ => true,
            },
    ensures
        out == passthrough(items),
        forall|i: int| 0 <= i < out.len() ==> !is_env_import(#[trigger] out[i]),
{
    lemma_all_locals_empty_captures_nothing(items);
    assert forall|i: int| 0 <= i < passthrough(items).len() implies out[i] == passthrough(items)[i]
    by {
        assert(out[captured(items).len() + i] == passthrough(items)[i]);
    }
    assert(out =~= passthrough(items));
    lemma_passthrough_no_env_import(items);
}

/// A module each of whose items contributes no named local captures
/// nothing.
proof fn lemma_all_locals_empty_captures_nothing(items: Seq<ModuleItem>)
    requires
        forall|i: int|
            0 <= i < items.len() ==> match #[trigger] items[i] {
                ModuleItem::Import(d) => is_env_import(items[i]) ==> !has_named_specifier(
                    d.specifiers@,
                ),
                _ => true,
            },
    ensures
        captured(items) == Seq::<Seq<char>>::empty(),
    decreases items.len(),
{
    if items.len() > 0 {
        assert(forall|j: int| 0 <= j < items.len() - 1 ==> items.drop_last()[j] == #[trigger] items[j]);
        lemma_all_locals_empty_captures_nothing(items.drop_last());
        let last = items[items.len() - 1];
        match last {
            ModuleItem::Import(d) => {
                if is_env_import(last) {
                    lemma_no_named_no_locals(d.specifiers@);
                }
            },
            _ => {},
        }
        assert(item_locals(last) =~= Seq::<Seq<char>>::empty());
        assert(captured(items) =~= Seq::<Seq<char>>::empty());
    }
}

/// The passed-through remainder is the input filtered of reserved-module
/// imports: preserved verbatim, in original relative order.
pub proof fn lemma_passthrough_is_filter(items: Seq<ModuleItem>)
    ensures
        passthrough(items) == items.filter(|item: ModuleItem| !is_env_import(item)),
    decreases items.len(),
{
    reveal(Seq::filter);
    if items.len() > 0 {
        lemma_passthrough_is_filter(items.drop_last());
    }
}

/// Running the pass a second time changes nothing: the first pass leaves no
/// reserved-module import behind, so the second captures nothing and passes
/// everything through.
pub proof fn lemma_second_pass_no_op(
    items: Seq<ModuleItem>,
    platform: Seq<char>,
    out: Seq<ModuleItem>,
    platform2: Seq<char>,
    out2: Seq<ModuleItem>,
)
    requires
        rewrite_post(items, platform, out),
        rewrite_post(out, platform2, out2),
    ensures
        out2 == out,
{
    let names = captured(items);
    let kept = passthrough(items);
    lemma_passthrough_no_env_import(items);
    assert forall|i: int| 0 <= i < out.len() implies !is_env_import(#[trigger] out[i]) by {
        if i < names.len() {
            assert(declares_flag(
                out[i],
                names[names.len() - 1 - i],
                platform_flags_spec(platform).contains(names[names.len() - 1 - i]),
            ));
        } else {
            assert(out[names.len() + (i - names.len())] == kept[i - names.len()]);
        }
    }
    lemma_no_env_import_unchanged(out, platform2, out2);
}

} // verus!
