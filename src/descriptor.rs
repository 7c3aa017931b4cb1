//! One catalog entry: a template's manifest fields and its content root.
use vstd::prelude::*;

verus! {

/// A template as the catalog records it.
#[derive(Debug, Clone)]
pub struct ScaffoldConfig {
    pub name: String,
    pub description: Option<String>,
    pub version: Option<String>,
    pub author: Option<String>,
    pub language: Option<String>,
    pub tags: Option<Vec<String>>,
    /// Content root of the template; set by the index builder, never by a manifest.
    pub path: String,
}

/// What a `ScaffoldConfig` holds, as text.
pub struct TemplateDescriptor {
    pub name: Seq<char>,
    pub description: Option<Seq<char>>,
    pub version: Option<Seq<char>>,
    pub author: Option<Seq<char>>,
    pub language: Option<Seq<char>>,
    pub tags: Option<Seq<Seq<char>>>,
    pub path: Seq<char>,
}

pub open spec fn opt_text(o: Option<String>) -> Option<Seq<char>> {
    match o {
        Some(s) => Some(s@),
        None => None,
    }
}

pub open spec fn texts(v: Seq<String>) -> Seq<Seq<char>> {
    v.map_values(|s: String| s@)
}

pub open spec fn opt_texts(o: Option<Vec<String>>) -> Option<Seq<Seq<char>>> {
    match o {
        Some(v) => Some(texts(v@)),
        None => None,
    }
}

impl View for ScaffoldConfig {
    type V = TemplateDescriptor;

    open spec fn view(&self) -> TemplateDescriptor {
        TemplateDescriptor {
            name: self.name@,
            description: opt_text(self.description),
            version: opt_text(self.version),
            author: opt_text(self.author),
            language: opt_text(self.language),
            tags: opt_texts(self.tags),
            path: self.path@,
        }
    }
}

/// The descriptors of a sequence of configs, in order.
pub open spec fn descriptors(v: Seq<ScaffoldConfig>) -> Seq<TemplateDescriptor> {
    v.map_values(|c: ScaffoldConfig| c@)
}

fn copy_text(o: &Option<String>) -> (r: Option<String>)
    ensures
        opt_text(r) == opt_text(*o),
{
    match o {
        Some(s) => Some(s.clone()),
        None => None,
    }
}

fn copy_texts(o: &Option<Vec<String>>) -> (r: Option<Vec<String>>)
    ensures
        opt_texts(r) == opt_texts(*o),
{
    match o {
        Some(v) => {
            let mut out: Vec<String> = Vec::new();
            let mut i: usize = 0;
            while i < v.len()
                invariant
                    i <= v@.len(),
                    out@.len() == i,
                    forall|k: int| 0 <= k < i ==> #[trigger] out@[k]@ == v@[k]@,
                decreases v@.len() - i,
            {
                let ghost before = out@;
                let s = v[i].clone();
                out.push(s);
                proof {
                    assert(out@ == before.push(v@[i as int]));
                }
                i = i + 1;
            }
            assert(texts(out@) =~= texts(v@));
            Some(out)
        },
        None => None,
    }
}

impl ScaffoldConfig {
    /// A copy of this entry.
    pub fn duplicate(&self) -> (r: ScaffoldConfig)
        ensures
            r@ == self@,
    {
        ScaffoldConfig {
            name: self.name.clone(),
            description: copy_text(&self.description),
            version: copy_text(&self.version),
            author: copy_text(&self.author),
            language: copy_text(&self.language),
            tags: copy_texts(&self.tags),
            path: self.path.clone(),
        }
    }

    /// This entry with its content root replaced by `path`.
    pub fn with_path(self, path: String) -> (r: ScaffoldConfig)
        ensures
            r@ == (TemplateDescriptor { path: path@, ..self@ }),
    {
        ScaffoldConfig { path, ..self }
    }
}

} // verus!
