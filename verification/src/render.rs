//! Rendering a configuration back into its file format, with the exact
//! text pinned down character by character.

use vstd::prelude::*;

use crate::config::{Config, ConfigItem, ConfigItemView, ConfigView};
use crate::scheme::SchemeSystem;

verus! {

/// The systems list as it is printed: each name quoted, separated by a
/// comma and a space.
pub open spec fn spec_quoted_list(ss: Seq<SchemeSystem>) -> Seq<char>
    decreases ss.len(),
{
    if ss.len() == 0 {
        Seq::empty()
    } else if ss.len() == 1 {
        "\""@ + ss[0].spec_name() + "\""@
    } else {
        spec_quoted_list(ss.drop_last()) + ", "@ + "\""@ + ss.last().spec_name() + "\""@
    }
}

fn quoted_list(ss: &Vec<SchemeSystem>) -> (r: String)
    ensures
        r@ == spec_quoted_list(ss@),
{
    let n = ss.len();
    let mut out = String::new();
    for k in 0..n
        invariant
            n == ss@.len(),
            out@ == spec_quoted_list(ss@.take(k as int)),
    {
        if k > 0 {
            out.append(", ");
        }
        out.append("\"");
        out.append(ss[k].name());
        out.append("\"");
        proof {
            assert(ss@.take(k + 1).drop_last() =~= ss@.take(k as int));
            assert(ss@.take(k + 1).last() == ss@[k as int]);
            assert(out@ == spec_quoted_list(ss@.take(k + 1)));
        }
    }
    proof {
        assert(ss@.take(n as int) =~= ss@);
    }
    out
}

/// One item as a `[[items]]` table: a leading blank line, the header,
/// `name`, `path`, `hook` when non-empty, the systems list (defaulted when
/// unset), and `themes-dir` without a trailing newline.
pub open spec fn spec_render_item(v: ConfigItemView) -> Seq<char> {
    "\n[[items]]\n"@ + "name = \""@ + v.name + "\"\n"@ + "path = \""@ + v.path + "\"\n"@ + (match v
        .hook {
        Some(h) => if h.len() > 0 {
            "hook = \""@ + h + "\"\n"@
        } else {
            Seq::empty()
        },
        None => Seq::empty(),
    }) + "supported-systems = ["@ + spec_quoted_list(
        match v.supported_systems {
            Some(ss) => ss,
            None => seq![SchemeSystem::Base16],
        },
    ) + "]\n"@ + "themes-dir = \""@ + v.themes_dir + "\""@
}

/// The whole configuration: the effective shell (the literal `None` when
/// unset), `default-scheme` when present, then every item followed by a
/// newline.
pub open spec fn spec_render_items(its: Seq<ConfigItemView>) -> Seq<char>
    decreases its.len(),
{
    if its.len() == 0 {
        Seq::empty()
    } else {
        spec_render_items(its.drop_last()) + spec_render_item(its.last()) + "\n"@
    }
}

pub open spec fn spec_render_config(cv: ConfigView) -> Seq<char> {
    "shell = \""@ + (match cv.shell {
        Some(s) => s,
        None => "None"@,
    }) + "\"\n"@ + (match cv.default_scheme {
        Some(d) => "default-scheme = \""@ + d + "\"\n"@,
        None => Seq::empty(),
    }) + (match cv.items {
        Some(its) => spec_render_items(its),
        None => Seq::empty(),
    })
}

impl ConfigItem {
    /// Renders this item in the file format it was read from.
    pub fn to_toml_string(&self) -> (r: String)
        ensures
            r@ == spec_render_item(self@),
    {
        let mut out = "\n[[items]]\n".to_owned();
        out.append("name = \"");
        out.append(self.name.as_str());
        out.append("\"\n");
        out.append("path = \"");
        out.append(self.path.as_str());
        out.append("\"\n");
        match &self.hook {
            Some(h) => {
                if !h.as_str().is_empty() {
                    out.append("hook = \"");
                    out.append(h.as_str());
                    out.append("\"\n");
                }
            },
            None => {},
        }
        out.append("supported-systems = [");
        let listed = match &self.supported_systems {
            Some(ss) => quoted_list(ss),
            None => {
                let mut one: Vec<SchemeSystem> = Vec::new();
                one.push(SchemeSystem::Base16);
                proof {
                    assert(one@ =~= seq![SchemeSystem::Base16]);
                }
                quoted_list(&one)
            },
        };
        out.append(listed.as_str());
        out.append("]\n");
        out.append("themes-dir = \"");
        out.append(self.themes_dir.as_str());
        out.append("\"");
        proof {
            assert(out@ =~= spec_render_item(self@));
        }
        out
    }
}

fn rendered_items(items: &Vec<ConfigItem>) -> (r: String)
    ensures
        r@ == spec_render_items(crate::config::view_items(items@)),
{
    let ghost its = crate::config::view_items(items@);
    let mut out = String::new();
    let n = items.len();
    for k in 0..n
        invariant
            n == items@.len(),
            its == crate::config::view_items(items@),
            out@ == spec_render_items(its.take(k as int)),
    {
        let one = items[k].to_toml_string();
        out.append(one.as_str());
        out.append("\n");
        proof {
            assert(its.take(k + 1).drop_last() =~= its.take(k as int));
            assert(its.take(k + 1).last() == its[k as int]);
            assert(out@ == spec_render_items(its.take(k + 1)));
        }
    }
    proof {
        assert(its.take(n as int) =~= its);
    }
    out
}

impl Config {
    /// Renders the whole configuration in its file format.
    pub fn to_toml_string(&self) -> (r: String)
        ensures
            r@ == spec_render_config(self@),
    {
        let mut out = "shell = \"".to_owned();
        match &self.shell {
            Some(s) => out.append(s.as_str()),
            None => out.append("None"),
        }
        out.append("\"\n");
        match &self.default_scheme {
            Some(d) => {
                out.append("default-scheme = \"");
                out.append(d.as_str());
                out.append("\"\n");
            },
            None => {},
        }
        match &self.items {
            Some(items) => {
                let tail = rendered_items(items);
                out.append(tail.as_str());
            },
            None => {},
        }
        proof {
            assert(out@ =~= spec_render_config(self@));
        }
        out
    }
}

} // verus!
