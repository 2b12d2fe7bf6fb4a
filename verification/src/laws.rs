//! The cross-cutting guarantees of the loader, stated and proved once
//! over the specification functions the public contracts use.

use vstd::prelude::*;

use crate::config::{
    ConfigError, ConfigView, spec_default_item, spec_default_shell, spec_message, spec_names,
    spec_unique_names,
};
use crate::load::{
    spec_all_norm_ok, spec_dup_check_fails, spec_initial_items, spec_loaded, spec_norm_item,
    spec_norm_items, spec_shell_of,
};
use crate::text::{spec_contains_seq, spec_has_placeholder};

verus! {

/// When a draft names no items at all, the loaded configuration holds
/// exactly one item: the built-in default, untouched by normalization,
/// whatever home directory was resolved.
pub proof fn lemma_absent_items_yield_default(c: ConfigView, home: Option<Seq<char>>)
    requires
        c.items is None,
    ensures
        spec_initial_items(c) =~= seq![spec_default_item()],
        spec_all_norm_ok(spec_initial_items(c), home),
        spec_loaded(c, home).items matches Some(its) && its =~= seq![spec_default_item()],
{
    let d = spec_default_item();
    let p = d.path;
    reveal_strlit("https://github.com/tinted-theming/tinted-shell");
    assert(p.len() == 46);
    assert(p[0] == 'h');
    assert(p[45] == 'l');
    assert(!crate::text::spec_is_ws(p[0]));
    assert(!crate::text::spec_is_ws(p.last()));
    assert(crate::text::spec_trim_start(p) == p);
    assert(crate::text::spec_trim_end(p) == p);
    assert(crate::text::spec_trim(p) == p);
    assert(!crate::load::spec_needs_home(p));
    let its0 = spec_initial_items(c);
    assert(its0[0] == d);
    assert(spec_norm_item(d, home) == Ok::<_, ()>(d)) by {
        assert(crate::load::spec_norm_systems(d) =~= d);
    }
    assert forall|k: int| 0 <= k < its0.len() implies spec_norm_item(
        #[trigger] its0[k],
        home,
    ) is Ok by {
        assert(its0[k] == d);
    }
    assert(spec_norm_items(its0, home) =~= seq![d]);
}

/// An empty draft (the draft of the empty or missing file) passes every
/// deterministic check and loads to the all-default configuration: the
/// built-in shell template and the single built-in item.
pub proof fn lemma_empty_draft_loads_all_defaults(home: Option<Seq<char>>)
    ensures
        ({
            let c = ConfigView { shell: None, default_scheme: None, items: None, hooks: None };
            &&& !spec_dup_check_fails(c)
            &&& spec_all_norm_ok(spec_initial_items(c), home)
            &&& spec_has_placeholder(spec_shell_of(c))
            &&& spec_loaded(c, home) =~= ConfigView {
                shell: Some(spec_default_shell()),
                default_scheme: None,
                items: Some(seq![spec_default_item()]),
                hooks: None,
            }
        }),
{
    let c = ConfigView { shell: None, default_scheme: None, items: None, hooks: None };
    lemma_absent_items_yield_default(c, home);
    reveal_strlit("sh -c '{}'");
    assert(spec_default_shell()[7] == '{');
    assert(spec_default_shell()[8] == '}');
    assert(spec_has_placeholder(spec_default_shell()));
}

/// Two items sharing one name make the duplicate check fail, so no
/// configuration is returned for such a draft.
pub proof fn lemma_shared_name_fails_load(c: ConfigView, i: int, j: int)
    requires
        c.items matches Some(its),
        0 <= i < j < (c.items->Some_0).len(),
        (c.items->Some_0)[i].name == (c.items->Some_0)[j].name,
    ensures
        spec_dup_check_fails(c),
        !spec_unique_names(spec_names(c.items->Some_0)),
{
    let its = c.items->Some_0;
    let ns = spec_names(its);
    assert(ns[i] == its[i].name);
    assert(ns[j] == its[j].name);
    assert(!spec_unique_names(ns));
}

/// The message of a duplicate-name failure spells out the repeated name.
pub proof fn lemma_duplicate_message_names_offender(n: String)
    ensures
        spec_contains_seq(spec_message(ConfigError::DuplicateItemName(n)), n@),
{
    let pre = "config items should have unique names, but \""@;
    let suf = "\" is used for more than one item"@;
    let msg = spec_message(ConfigError::DuplicateItemName(n));
    assert(msg == pre + n@ + suf);
    let i = pre.len() as int;
    assert(msg.subrange(i, i + n@.len()) =~= n@);
}

} // verus!
