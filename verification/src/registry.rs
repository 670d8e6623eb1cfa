//! The language profile registry: a process-wide table, built once at
//! startup and only read afterwards, mapping file extensions to profiles.

use vstd::prelude::*;

use crate::profile::{profile_wf, LanguageProfile, ProfileModel};
use crate::text::{ascii_bytes, bytes_eq, lower, str_bytes, to_lower};

verus! {

/// The fixed table of known languages, as specification-level data: exactly
/// what `Registry::new` builds, entry by entry.
pub open spec fn language_table() -> Seq<ProfileModel> {
    seq![
        ProfileModel {
            name: "Rust"@,
            extensions: seq![ascii_bytes("rs"@)],
            line_comments: seq![ascii_bytes("//"@)],
            block_starts: seq![ascii_bytes("/*"@)],
            block_ends: seq![ascii_bytes("*/"@)],
        },
        ProfileModel {
            name: "C/C++"@,
            extensions: seq![
                ascii_bytes("c"@),
                ascii_bytes("cpp"@),
                ascii_bytes("cc"@),
                ascii_bytes("cxx"@),
                ascii_bytes("h"@),
                ascii_bytes("hpp"@),
            ],
            line_comments: seq![ascii_bytes("//"@)],
            block_starts: seq![ascii_bytes("/*"@)],
            block_ends: seq![ascii_bytes("*/"@)],
        },
        ProfileModel {
            name: "Python"@,
            extensions: seq![ascii_bytes("py"@), ascii_bytes("pyw"@)],
            line_comments: seq![ascii_bytes("#"@)],
            block_starts: seq![ascii_bytes("\"\"\""@), ascii_bytes("'''"@)],
            block_ends: seq![ascii_bytes("\"\"\""@), ascii_bytes("'''"@)],
        },
        ProfileModel {
            name: "JavaScript"@,
            extensions: seq![ascii_bytes("js"@), ascii_bytes("jsx"@), ascii_bytes("mjs"@)],
            line_comments: seq![ascii_bytes("//"@)],
            block_starts: seq![ascii_bytes("/*"@)],
            block_ends: seq![ascii_bytes("*/"@)],
        },
        ProfileModel {
            name: "TypeScript"@,
            extensions: seq![ascii_bytes("ts"@), ascii_bytes("tsx"@)],
            line_comments: seq![ascii_bytes("//"@)],
            block_starts: seq![ascii_bytes("/*"@)],
            block_ends: seq![ascii_bytes("*/"@)],
        },
        ProfileModel {
            name: "Java"@,
            extensions: seq![ascii_bytes("java"@)],
            line_comments: seq![ascii_bytes("//"@)],
            block_starts: seq![ascii_bytes("/*"@)],
            block_ends: seq![ascii_bytes("*/"@)],
        },
        ProfileModel {
            name: "C#"@,
            extensions: seq![ascii_bytes("cs"@)],
            line_comments: seq![ascii_bytes("//"@)],
            block_starts: seq![ascii_bytes("/*"@)],
            block_ends: seq![ascii_bytes("*/"@)],
        },
        ProfileModel {
            name: "Go"@,
            extensions: seq![ascii_bytes("go"@)],
            line_comments: seq![ascii_bytes("//"@)],
            block_starts: seq![ascii_bytes("/*"@)],
            block_ends: seq![ascii_bytes("*/"@)],
        },
        ProfileModel {
            name: "Shell"@,
            extensions: seq![ascii_bytes("sh"@), ascii_bytes("bash"@), ascii_bytes("zsh"@)],
            line_comments: seq![ascii_bytes("#"@)],
            block_starts: Seq::empty(),
            block_ends: Seq::empty(),
        },
        ProfileModel {
            name: "PowerShell"@,
            extensions: seq![ascii_bytes("ps1"@), ascii_bytes("psm1"@), ascii_bytes("psd1"@)],
            line_comments: seq![ascii_bytes("#"@)],
            block_starts: seq![ascii_bytes("<#"@)],
            block_ends: seq![ascii_bytes("#>"@)],
        },
        ProfileModel {
            name: "HTML"@,
            extensions: seq![ascii_bytes("html"@), ascii_bytes("htm"@), ascii_bytes("xml"@)],
            line_comments: Seq::empty(),
            block_starts: seq![ascii_bytes("<!--"@)],
            block_ends: seq![ascii_bytes("-->"@)],
        },
        ProfileModel {
            name: "CSS"@,
            extensions: seq![ascii_bytes("css"@)],
            line_comments: Seq::empty(),
            block_starts: seq![ascii_bytes("/*"@)],
            block_ends: seq![ascii_bytes("*/"@)],
        },
        ProfileModel {
            name: "SQL"@,
            extensions: seq![ascii_bytes("sql"@)],
            line_comments: seq![ascii_bytes("--"@)],
            block_starts: seq![ascii_bytes("/*"@)],
            block_ends: seq![ascii_bytes("*/"@)],
        },
        ProfileModel {
            name: "Ruby"@,
            extensions: seq![ascii_bytes("rb"@)],
            line_comments: seq![ascii_bytes("#"@)],
            block_starts: seq![ascii_bytes("=begin"@)],
            block_ends: seq![ascii_bytes("=end"@)],
        },
        ProfileModel {
            name: "PHP"@,
            extensions: seq![ascii_bytes("php"@)],
            line_comments: seq![ascii_bytes("//"@), ascii_bytes("#"@)],
            block_starts: seq![ascii_bytes("/*"@)],
            block_ends: seq![ascii_bytes("*/"@)],
        },
        ProfileModel {
            name: "YAML"@,
            extensions: seq![ascii_bytes("yaml"@), ascii_bytes("yml"@)],
            line_comments: seq![ascii_bytes("#"@)],
            block_starts: Seq::empty(),
            block_ends: Seq::empty(),
        },
        ProfileModel {
            name: "JSON"@,
            extensions: seq![ascii_bytes("json"@)],
            line_comments: Seq::empty(),
            block_starts: Seq::empty(),
            block_ends: Seq::empty(),
        },
        ProfileModel {
            name: "Markdown"@,
            extensions: seq![ascii_bytes("md"@), ascii_bytes("markdown"@)],
            line_comments: Seq::empty(),
            block_starts: seq![ascii_bytes("<!--"@)],
            block_ends: seq![ascii_bytes("-->"@)],
        },
    ]
}

/// The table of known languages.
pub struct Registry {
    pub profiles: Vec<LanguageProfile>,
}

impl View for Registry {
    type V = Seq<ProfileModel>;

    open spec fn view(&self) -> Seq<ProfileModel> {
        Seq::new(self.profiles@.len(), |i: int| self.profiles@[i]@)
    }
}

/// Every profile of the table is well-formed.
pub open spec fn registry_wf(r: Seq<ProfileModel>) -> bool {
    forall|i: int| 0 <= i < r.len() ==> profile_wf(#[trigger] r[i])
}

/// The first profile at or after index `i` whose extension list holds `e`.
pub open spec fn resolve_from(r: Seq<ProfileModel>, e: Seq<u8>, i: int) -> Option<int>
    decreases r.len() - i,
{
    if i < 0 || i >= r.len() {
        None
    } else if r[i].extensions.contains(e) {
        Some(i)
    } else {
        resolve_from(r, e, i + 1)
    }
}

/// Extension resolution: case-insensitive, the first matching profile wins.
pub open spec fn spec_resolve(r: Seq<ProfileModel>, ext: Seq<u8>) -> Option<int> {
    resolve_from(r, lower(ext), 0)
}

/// Law: resolution is a function of the table and the extension alone, so
/// resolving the same extension twice yields the same profile.
pub proof fn lemma_resolve_deterministic(
    r: Seq<ProfileModel>,
    ext: Seq<u8>,
    r1: Option<int>,
    r2: Option<int>,
)
    requires
        r1 == spec_resolve(r, ext),
        r2 == spec_resolve(r, ext),
    ensures
        r1 == r2,
{
}

/// Whether `e` is one of `p`'s extensions.
fn has_ext(p: &LanguageProfile, e: &Vec<u8>) -> (r: bool)
    ensures
        r == p@.extensions.contains(e@),
{
    let n = p.extensions.len();
    let mut i: usize = 0;
    while i < n
        invariant
            n == p.extensions@.len(),
            0 <= i <= n,
            forall|j: int| 0 <= j < i ==> p@.extensions[j] != e@,
        decreases n - i,
    {
        proof {
            assert(p@.extensions[i as int] =~= p.extensions@[i as int]@);
        }
        if bytes_eq(&p.extensions[i], e) {
            assert(p@.extensions[i as int] == e@);
            return true;
        }
        i = i + 1;
    }
    false
}

impl Registry {
    /// Builds the table of known languages. Tokens are ASCII literals; every
    /// profile is proved well-formed as it is added.
    #[verifier::rlimit(60)]
    pub fn new() -> (r: Registry)
        ensures
            r@ == language_table(),
            registry_wf(r@),
            r@.len() == 18,
    {
        proof {
            reveal_strlit("rs");
            reveal_strlit("c");
            reveal_strlit("cpp");
            reveal_strlit("cc");
            reveal_strlit("cxx");
            reveal_strlit("h");
            reveal_strlit("hpp");
            reveal_strlit("py");
            reveal_strlit("pyw");
            reveal_strlit("js");
            reveal_strlit("jsx");
            reveal_strlit("mjs");
            reveal_strlit("ts");
            reveal_strlit("tsx");
            reveal_strlit("java");
            reveal_strlit("cs");
            reveal_strlit("go");
            reveal_strlit("sh");
            reveal_strlit("bash");
            reveal_strlit("zsh");
            reveal_strlit("ps1");
            reveal_strlit("psm1");
            reveal_strlit("psd1");
            reveal_strlit("html");
            reveal_strlit("htm");
            reveal_strlit("xml");
            reveal_strlit("css");
            reveal_strlit("sql");
            reveal_strlit("rb");
            reveal_strlit("php");
            reveal_strlit("yaml");
            reveal_strlit("yml");
            reveal_strlit("json");
            reveal_strlit("md");
            reveal_strlit("markdown");
            reveal_strlit("//");
            reveal_strlit("#");
            reveal_strlit("/*");
            reveal_strlit("*/");
            reveal_strlit("\"\"\"");
            reveal_strlit("'''");
            reveal_strlit("<#");
            reveal_strlit("#>");
            reveal_strlit("<!--");
            reveal_strlit("-->");
            reveal_strlit("--");
            reveal_strlit("=begin");
            reveal_strlit("=end");
        }
        let mut profiles: Vec<LanguageProfile> = Vec::new();
        let p = LanguageProfile {
            name: "Rust".to_owned(),
            extensions: vec![str_bytes("rs")],
            line_comments: vec![str_bytes("//")],
            block_starts: vec![str_bytes("/*")],
            block_ends: vec![str_bytes("*/")],
        };
        proof {
            assert(profile_wf(p@));
            assert(p@ =~~= language_table()[0]);
        }
        profiles.push(p);
        let p = LanguageProfile {
            name: "C/C++".to_owned(),
            extensions: vec![
                str_bytes("c"),
                str_bytes("cpp"),
                str_bytes("cc"),
                str_bytes("cxx"),
                str_bytes("h"),
                str_bytes("hpp"),
            ],
            line_comments: vec![str_bytes("//")],
            block_starts: vec![str_bytes("/*")],
            block_ends: vec![str_bytes("*/")],
        };
        proof {
            assert(profile_wf(p@));
            assert(p@ =~~= language_table()[1]);
        }
        profiles.push(p);
        let p = LanguageProfile {
            name: "Python".to_owned(),
            extensions: vec![str_bytes("py"), str_bytes("pyw")],
            line_comments: vec![str_bytes("#")],
            block_starts: vec![str_bytes("\"\"\""), str_bytes("'''")],
            block_ends: vec![str_bytes("\"\"\""), str_bytes("'''")],
        };
        proof {
            assert(p@.block_starts[0][0] == 34);
            assert(p@.block_starts[1][0] == 39);
            assert(profile_wf(p@));
            assert(p@ =~~= language_table()[2]);
        }
        profiles.push(p);
        let p = LanguageProfile {
            name: "JavaScript".to_owned(),
            extensions: vec![str_bytes("js"), str_bytes("jsx"), str_bytes("mjs")],
            line_comments: vec![str_bytes("//")],
            block_starts: vec![str_bytes("/*")],
            block_ends: vec![str_bytes("*/")],
        };
        proof {
            assert(profile_wf(p@));
            assert(p@ =~~= language_table()[3]);
        }
        profiles.push(p);
        let p = LanguageProfile {
            name: "TypeScript".to_owned(),
            extensions: vec![str_bytes("ts"), str_bytes("tsx")],
            line_comments: vec![str_bytes("//")],
            block_starts: vec![str_bytes("/*")],
            block_ends: vec![str_bytes("*/")],
        };
        proof {
            assert(profile_wf(p@));
            assert(p@ =~~= language_table()[4]);
        }
        profiles.push(p);
        let p = LanguageProfile {
            name: "Java".to_owned(),
            extensions: vec![str_bytes("java")],
            line_comments: vec![str_bytes("//")],
            block_starts: vec![str_bytes("/*")],
            block_ends: vec![str_bytes("*/")],
        };
        proof {
            assert(profile_wf(p@));
            assert(p@ =~~= language_table()[5]);
        }
        profiles.push(p);
        let p = LanguageProfile {
            name: "C#".to_owned(),
            extensions: vec![str_bytes("cs")],
            line_comments: vec![str_bytes("//")],
            block_starts: vec![str_bytes("/*")],
            block_ends: vec![str_bytes("*/")],
        };
        proof {
            assert(profile_wf(p@));
            assert(p@ =~~= language_table()[6]);
        }
        profiles.push(p);
        let p = LanguageProfile {
            name: "Go".to_owned(),
            extensions: vec![str_bytes("go")],
            line_comments: vec![str_bytes("//")],
            block_starts: vec![str_bytes("/*")],
            block_ends: vec![str_bytes("*/")],
        };
        proof {
            assert(profile_wf(p@));
            assert(p@ =~~= language_table()[7]);
        }
        profiles.push(p);
        let p = LanguageProfile {
            name: "Shell".to_owned(),
            extensions: vec![str_bytes("sh"), str_bytes("bash"), str_bytes("zsh")],
            line_comments: vec![str_bytes("#")],
            block_starts: Vec::new(),
            block_ends: Vec::new(),
        };
        proof {
            assert(profile_wf(p@));
            assert(p@ =~~= language_table()[8]);
        }
        profiles.push(p);
        let p = LanguageProfile {
            name: "PowerShell".to_owned(),
            extensions: vec![str_bytes("ps1"), str_bytes("psm1"), str_bytes("psd1")],
            line_comments: vec![str_bytes("#")],
            block_starts: vec![str_bytes("<#")],
            block_ends: vec![str_bytes("#>")],
        };
        proof {
            assert(profile_wf(p@));
            assert(p@ =~~= language_table()[9]);
        }
        profiles.push(p);
        let p = LanguageProfile {
            name: "HTML".to_owned(),
            extensions: vec![str_bytes("html"), str_bytes("htm"), str_bytes("xml")],
            line_comments: Vec::new(),
            block_starts: vec![str_bytes("<!--")],
            block_ends: vec![str_bytes("-->")],
        };
        proof {
            assert(profile_wf(p@));
            assert(p@ =~~= language_table()[10]);
        }
        profiles.push(p);
        let p = LanguageProfile {
            name: "CSS".to_owned(),
            extensions: vec![str_bytes("css")],
            line_comments: Vec::new(),
            block_starts: vec![str_bytes("/*")],
            block_ends: vec![str_bytes("*/")],
        };
        proof {
            assert(profile_wf(p@));
            assert(p@ =~~= language_table()[11]);
        }
        profiles.push(p);
        let p = LanguageProfile {
            name: "SQL".to_owned(),
            extensions: vec![str_bytes("sql")],
            line_comments: vec![str_bytes("--")],
            block_starts: vec![str_bytes("/*")],
            block_ends: vec![str_bytes("*/")],
        };
        proof {
            assert(profile_wf(p@));
            assert(p@ =~~= language_table()[12]);
        }
        profiles.push(p);
        let p = LanguageProfile {
            name: "Ruby".to_owned(),
            extensions: vec![str_bytes("rb")],
            line_comments: vec![str_bytes("#")],
            block_starts: vec![str_bytes("=begin")],
            block_ends: vec![str_bytes("=end")],
        };
        proof {
            assert(profile_wf(p@));
            assert(p@ =~~= language_table()[13]);
        }
        profiles.push(p);
        let p = LanguageProfile {
            name: "PHP".to_owned(),
            extensions: vec![str_bytes("php")],
            line_comments: vec![str_bytes("//"), str_bytes("#")],
            block_starts: vec![str_bytes("/*")],
            block_ends: vec![str_bytes("*/")],
        };
        proof {
            assert(profile_wf(p@));
            assert(p@ =~~= language_table()[14]);
        }
        profiles.push(p);
        let p = LanguageProfile {
            name: "YAML".to_owned(),
            extensions: vec![str_bytes("yaml"), str_bytes("yml")],
            line_comments: vec![str_bytes("#")],
            block_starts: Vec::new(),
            block_ends: Vec::new(),
        };
        proof {
            assert(profile_wf(p@));
            assert(p@ =~~= language_table()[15]);
        }
        profiles.push(p);
        let p = LanguageProfile {
            name: "JSON".to_owned(),
            extensions: vec![str_bytes("json")],
            line_comments: Vec::new(),
            block_starts: Vec::new(),
            block_ends: Vec::new(),
        };
        proof {
            assert(profile_wf(p@));
            assert(p@ =~~= language_table()[16]);
        }
        profiles.push(p);
        let p = LanguageProfile {
            name: "Markdown".to_owned(),
            extensions: vec![str_bytes("md"), str_bytes("markdown")],
            line_comments: Vec::new(),
            block_starts: vec![str_bytes("<!--")],
            block_ends: vec![str_bytes("-->")],
        };
        proof {
            assert(profile_wf(p@));
            assert(p@ =~~= language_table()[17]);
        }
        profiles.push(p);
        let r = Registry { profiles };
        proof {
            assert(forall|i: int| 0 <= i < r@.len() ==> profile_wf(#[trigger] r@[i]));
            assert(r@ =~= language_table());
        }
        r
    }

    /// How many languages the table knows.
    pub fn len(&self) -> (n: usize)
        ensures
            n == self@.len(),
    {
        self.profiles.len()
    }

    /// The profile at index `i`.
    pub fn profile(&self, i: usize) -> (p: &LanguageProfile)
        requires
            i < self@.len(),
        ensures
            p@ == self@[i as int],
    {
        &self.profiles[i]
    }

    /// Maps a file extension, case-insensitively in the ASCII sense, to the
    /// index of the first profile listing it, or `None` for an unsupported
    /// extension. Non-ASCII bytes in the extension are compared as they are.
    pub fn resolve(&self, ext: &Vec<u8>) -> (r: Option<usize>)
        ensures
            match r {
                Some(i) => i < self@.len() && spec_resolve(self@, ext@) == Some(i as int),
                None => spec_resolve(self@, ext@) is None,
            },
    {
        let e = to_lower(ext);
        let n = self.profiles.len();
        let mut i: usize = 0;
        while i < n
            invariant
                e@ == lower(ext@),
                n == self.profiles@.len(),
                n == self@.len(),
                0 <= i <= n,
                resolve_from(self@, e@, 0) == resolve_from(self@, e@, i as int),
            decreases n - i,
        {
            proof {
                assert(self@[i as int] == self.profiles@[i as int]@);
            }
            if has_ext(&self.profiles[i], &e) {
                proof {
                    assert(resolve_from(self@, e@, i as int) == Some(i as int));
                }
                return Some(i);
            }
            proof {
                assert(resolve_from(self@, e@, i as int) == resolve_from(
                    self@,
                    e@,
                    i as int + 1,
                ));
            }
            i = i + 1;
        }
        None
    }
}

} // verus!

