//! The fixed table of framework templates.
use vstd::prelude::*;

verus! {

/// The role of a framework template.
#[derive(Debug, Clone, Copy, PartialEq, Eq, Structural)]
pub enum TemplateType {
    /// Base of a monorepo.
    Monorepo,
    /// A project on its own.
    Standalone,
    /// An application inside a monorepo.
    App,
}

#[derive(Debug, Clone)]
pub struct TemplateInfo {
    pub name: String,
    pub description: String,
    pub template_type: TemplateType,
    pub path: String,
}

/// A framework template, by framework.
#[derive(Debug, Clone)]
pub enum Template {
    React(TemplateInfo),
    Vue(TemplateInfo),
    Nest(TemplateInfo),
    Express(TemplateInfo),
}

/// The frameworks that templates exist for.
#[derive(Debug, Clone, Copy, PartialEq, Eq, Structural)]
pub enum Framework {
    React,
    Vue,
    Nest,
    Express,
}

/// What a `TemplateInfo` holds, as text.
pub struct InfoView {
    pub name: Seq<char>,
    pub description: Seq<char>,
    pub template_type: TemplateType,
    pub path: Seq<char>,
}

impl View for TemplateInfo {
    type V = InfoView;

    open spec fn view(&self) -> InfoView {
        InfoView {
            name: self.name@,
            description: self.description@,
            template_type: self.template_type,
            path: self.path@,
        }
    }
}

impl View for Template {
    type V = (Framework, InfoView);

    open spec fn view(&self) -> (Framework, InfoView) {
        match self {
            Template::React(i) => (Framework::React, i@),
            Template::Vue(i) => (Framework::Vue, i@),
            Template::Nest(i) => (Framework::Nest, i@),
            Template::Express(i) => (Framework::Express, i@),
        }
    }
}

/// One row of the table.
pub open spec fn row(
    f: Framework,
    name: &str,
    description: &str,
    template_type: TemplateType,
    path: &str,
) -> (Framework, InfoView) {
    (f, InfoView { name: name@, description: description@, template_type, path: path@ })
}

/// Every framework template, in listing order.
pub open spec fn template_table() -> Seq<(Framework, InfoView)> {
    seq![
        row(Framework::React, "React", "React Monorepo 基座", TemplateType::Monorepo, "templates/react/monorepo"),
        row(Framework::React, "React", "React 单体项目", TemplateType::Standalone, "templates/react/standalone"),
        row(Framework::React, "React", "React 应用模板", TemplateType::App, "templates/react/app"),
        row(Framework::Vue, "Vue", "Vue Monorepo 基座", TemplateType::Monorepo, "templates/vue/monorepo"),
        row(Framework::Vue, "Vue", "Vue 单体项目", TemplateType::Standalone, "templates/vue/standalone"),
        row(Framework::Vue, "Vue", "Vue 应用模板", TemplateType::App, "templates/vue/app"),
        row(Framework::Nest, "Nest", "NestJS 单体项目", TemplateType::Standalone, "templates/nest/standalone"),
        row(Framework::Express, "Express", "Express 单体项目", TemplateType::Standalone, "templates/express/standalone"),
    ]
}

/// Row `r` is called `name` and, when `kind` is given, has that type.
pub open spec fn row_matches(r: (Framework, InfoView), name: Seq<char>, kind: Option<TemplateType>) -> bool {
    &&& r.1.name == name
    &&& match kind {
        Some(k) => r.1.template_type == k,
        None => true,
    }
}

/// Row `k` of the table is the first one that matches.
pub open spec fn is_first_match(name: Seq<char>, kind: Option<TemplateType>, k: int) -> bool {
    &&& 0 <= k < template_table().len()
    &&& row_matches(template_table()[k], name, kind)
    &&& forall|j: int| 0 <= j < k ==> !row_matches(#[trigger] template_table()[j], name, kind)
}

/// Some row of the table matches.
pub open spec fn has_match(name: Seq<char>, kind: Option<TemplateType>) -> bool {
    exists|k: int| 0 <= k < template_table().len() && row_matches(#[trigger] template_table()[k], name, kind)
}

/// The result of a lookup in the table: the first matching row, or none.
pub open spec fn lookup_result(r: Option<Template>, name: Seq<char>, kind: Option<TemplateType>) -> bool {
    match r {
        Some(t) => exists|k: int| is_first_match(name, kind, k) && t@ == template_table()[k],
        None => !has_match(name, kind),
    }
}

fn info(name: &str, description: &str, template_type: TemplateType, path: &str) -> (r: TemplateInfo)
    ensures
        r@ == (InfoView { name: name@, description: description@, template_type, path: path@ }),
{
    TemplateInfo {
        name: String::from_str(name),
        description: String::from_str(description),
        template_type,
        path: String::from_str(path),
    }
}

impl Template {
    /// Every framework template, in listing order.
    pub fn all() -> (r: Vec<Template>)
        ensures
            r@.map_values(|t: Template| t@) == template_table(),
    {
        let mut v: Vec<Template> = Vec::new();
        v.push(Template::React(info("React", "React Monorepo 基座", TemplateType::Monorepo, "templates/react/monorepo")));
        v.push(Template::React(info("React", "React 单体项目", TemplateType::Standalone, "templates/react/standalone")));
        v.push(Template::React(info("React", "React 应用模板", TemplateType::App, "templates/react/app")));
        v.push(Template::Vue(info("Vue", "Vue Monorepo 基座", TemplateType::Monorepo, "templates/vue/monorepo")));
        v.push(Template::Vue(info("Vue", "Vue 单体项目", TemplateType::Standalone, "templates/vue/standalone")));
        v.push(Template::Vue(info("Vue", "Vue 应用模板", TemplateType::App, "templates/vue/app")));
        v.push(Template::Nest(info("Nest", "NestJS 单体项目", TemplateType::Standalone, "templates/nest/standalone")));
        v.push(Template::Express(info("Express", "Express 单体项目", TemplateType::Standalone, "templates/express/standalone")));
        assert(v@.map_values(|t: Template| t@) =~= template_table());
        v
    }

    /// The names of the frameworks, each once.
    pub fn all_frameworks() -> (r: Vec<String>)
        ensures
            r@.map_values(|s: String| s@) == seq!["React"@, "Vue"@, "Nest"@, "Express"@],
    {
        let mut v: Vec<String> = Vec::new();
        v.push(String::from_str("React"));
        v.push(String::from_str("Vue"));
        v.push(String::from_str("Nest"));
        v.push(String::from_str("Express"));
        assert(v@.map_values(|s: String| s@) =~= seq!["React"@, "Vue"@, "Nest"@, "Express"@]);
        v
    }

    /// Whether `name` is the name of a framework, as the user must type it.
    pub fn is_framework(name: &str) -> (r: bool)
        ensures
            r == seq!["React"@, "Vue"@, "Nest"@, "Express"@].contains(name@),
    {
        let frameworks = Template::all_frameworks();
        let ghost names = seq!["React"@, "Vue"@, "Nest"@, "Express"@];
        assert(frameworks@.map_values(|s: String| s@).len() == 4);
        assert(names.len() == 4);
        assert(forall|k: int| 0 <= k < 4 ==> #[trigger] frameworks@[k]@ == names[k]) by {
            assert forall|k: int| 0 <= k < 4 implies #[trigger] frameworks@[k]@ == names[k] by {
                assert(frameworks@.map_values(|s: String| s@)[k] == frameworks@[k]@);
            }
        }
        let key = String::from_str(name);
        let mut i: usize = 0;
        while i < frameworks.len()
            invariant
                frameworks@.len() == 4,
                names.len() == 4,
                names == seq!["React"@, "Vue"@, "Nest"@, "Express"@],
                forall|k: int| 0 <= k < 4 ==> #[trigger] frameworks@[k]@ == names[k],
                i <= 4,
                key@ == name@,
                forall|j: int| 0 <= j < i ==> #[trigger] names[j] != name@,
            decreases 4 - i,
        {
            if frameworks[i] == key {
                assert(names[i as int] == name@);
                assert(names.contains(name@));
                return true;
            }
            i = i + 1;
        }
        assert(!names.contains(name@)) by {
            if names.contains(name@) {
                let k = choose|k: int| 0 <= k < names.len() && names[k] == name@;
                assert(names[k] != name@);
            }
        }
        false
    }

    /// The first template of the table called `name` and, when `kind` is
    /// given, of that type.
    fn find(name: &str, kind: Option<TemplateType>) -> (r: Option<Template>)
        ensures
            lookup_result(r, name@, kind),
    {
        let key = String::from_str(name);
        let mut all = Template::all();
        let ghost table = all@;
        assert(forall|k: int| 0 <= k < table.len() ==> #[trigger] table[k]@ == template_table()[k]) by {
            assert forall|k: int| 0 <= k < table.len() implies #[trigger] table[k]@ == template_table()[k] by {
                assert(table.map_values(|t: Template| t@)[k] == table[k]@);
            }
        }
        let mut i: usize = 0;
        while i < all.len()
            invariant
                all@ == table,
                table.len() == template_table().len(),
                forall|k: int| 0 <= k < table.len() ==> #[trigger] table[k]@ == template_table()[k],
                i <= table.len(),
                key@ == name@,
                forall|j: int| 0 <= j < i ==> !row_matches(#[trigger] template_table()[j], name@, kind),
            decreases table.len() - i,
        {
            let hit = {
                let info = Template::transform_to_info(&all[i]);
                info.name == key && match kind {
                    Some(k) => info.template_type == k,
                    None => true,
                }
            };
            assert(all@[i as int]@ == template_table()[i as int]);
            if hit {
                let t = all.remove(i);
                return Some(t);
            }
            i = i + 1;
        }
        None
    }

    /// The monorepo base of the framework called `name`.
    pub fn get_monorepo(name: &str) -> (r: Option<Template>)
        ensures
            lookup_result(r, name@, Some(TemplateType::Monorepo)),
    {
        Template::find(name, Some(TemplateType::Monorepo))
    }

    /// The standalone project template of the framework called `name`.
    pub fn get_standalone(name: &str) -> (r: Option<Template>)
        ensures
            lookup_result(r, name@, Some(TemplateType::Standalone)),
    {
        Template::find(name, Some(TemplateType::Standalone))
    }

    /// The monorepo application template of the framework called `name`.
    pub fn get_app(name: &str) -> (r: Option<Template>)
        ensures
            lookup_result(r, name@, Some(TemplateType::App)),
    {
        Template::find(name, Some(TemplateType::App))
    }

    /// The first template of the framework called `name`, whatever its type.
    pub fn get_by_name(name: &str) -> (r: Option<Template>)
        ensures
            lookup_result(r, name@, None),
    {
        Template::find(name, None)
    }

    /// Whether the framework called `name` has a monorepo base.
    pub fn supports_monorepo(name: &str) -> (r: bool)
        ensures
            r == has_match(name@, Some(TemplateType::Monorepo)),
    {
        Template::get_monorepo(name).is_some()
    }

    /// The description of a template, whatever its framework.
    pub fn transform_to_info(temp: &Template) -> (r: &TemplateInfo)
        ensures
            r@ == temp@.1,
    {
        match temp {
            Template::React(info) => info,
            Template::Vue(info) => info,
            Template::Nest(info) => info,
            Template::Express(info) => info,
        }
    }
}

} // verus!
