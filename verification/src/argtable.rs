//! Per-parameter argument attributes and the lookup table the assembler
//! queries: variadic markers, keyword-only markers and default expressions,
//! keyed by parameter name.

use vstd::prelude::*;

use crate::diag::{Diagnostic, DiagnosticV, ErrorKind};
use crate::strutil::str_eq;
use crate::SrcLoc;

verus! {

/// One normalized argument-shape attribute, naming the parameter it affects.
/// A default expression is stored as unparsed source text.
#[derive(Debug, PartialEq, Eq)]
pub enum ArgumentAttribute {
    PositionalDefault { name: String, expr: Option<String>, loc: SrcLoc },
    KeywordOnly { name: String, expr: Option<String>, loc: SrcLoc },
    VariadicPositional { name: String, loc: SrcLoc },
    VariadicKeyword { name: String, loc: SrcLoc },
}

/// Mathematical model of an [`ArgumentAttribute`].
pub enum ArgumentAttributeV {
    PositionalDefault { name: Seq<char>, expr: Option<Seq<char>>, loc: SrcLoc },
    KeywordOnly { name: Seq<char>, expr: Option<Seq<char>>, loc: SrcLoc },
    VariadicPositional { name: Seq<char>, loc: SrcLoc },
    VariadicKeyword { name: Seq<char>, loc: SrcLoc },
}

impl View for ArgumentAttribute {
    type V = ArgumentAttributeV;

    open spec fn view(&self) -> ArgumentAttributeV {
        match self {
            ArgumentAttribute::PositionalDefault { name, expr, loc } => {
                ArgumentAttributeV::PositionalDefault {
                    name: name@,
                    expr: match expr {
                        Some(e) => Some(e@),
                        None => None,
                    },
                    loc: *loc,
                }
            },
            ArgumentAttribute::KeywordOnly { name, expr, loc } => {
                ArgumentAttributeV::KeywordOnly {
                    name: name@,
                    expr: match expr {
                        Some(e) => Some(e@),
                        None => None,
                    },
                    loc: *loc,
                }
            },
            ArgumentAttribute::VariadicPositional { name, loc } => {
                ArgumentAttributeV::VariadicPositional { name: name@, loc: *loc }
            },
            ArgumentAttribute::VariadicKeyword { name, loc } => {
                ArgumentAttributeV::VariadicKeyword { name: name@, loc: *loc }
            },
        }
    }
}

impl DeepView for ArgumentAttribute {
    type V = ArgumentAttributeV;

    open spec fn deep_view(&self) -> ArgumentAttributeV {
        self.view()
    }
}

impl Clone for ArgumentAttribute {
    fn clone(&self) -> (r: Self)
        ensures
            r@ == self@,
    {
        match self {
            ArgumentAttribute::PositionalDefault { name, expr, loc } => {
                ArgumentAttribute::PositionalDefault {
                    name: name.clone(),
                    expr: match expr {
                        Some(e) => Some(e.clone()),
                        None => None,
                    },
                    loc: *loc,
                }
            },
            ArgumentAttribute::KeywordOnly { name, expr, loc } => {
                ArgumentAttribute::KeywordOnly {
                    name: name.clone(),
                    expr: match expr {
                        Some(e) => Some(e.clone()),
                        None => None,
                    },
                    loc: *loc,
                }
            },
            ArgumentAttribute::VariadicPositional { name, loc } => {
                ArgumentAttribute::VariadicPositional { name: name.clone(), loc: *loc }
            },
            ArgumentAttribute::VariadicKeyword { name, loc } => {
                ArgumentAttribute::VariadicKeyword { name: name.clone(), loc: *loc }
            },
        }
    }
}

/// The parameter name an attribute refers to.
pub open spec fn attr_name_spec(a: ArgumentAttributeV) -> Seq<char> {
    match a {
        ArgumentAttributeV::PositionalDefault { name, .. } => name,
        ArgumentAttributeV::KeywordOnly { name, .. } => name,
        ArgumentAttributeV::VariadicPositional { name, .. } => name,
        ArgumentAttributeV::VariadicKeyword { name, .. } => name,
    }
}

/// The source location of an attribute.
pub open spec fn attr_loc_spec(a: ArgumentAttributeV) -> SrcLoc {
    match a {
        ArgumentAttributeV::PositionalDefault { loc, .. } => loc,
        ArgumentAttributeV::KeywordOnly { loc, .. } => loc,
        ArgumentAttributeV::VariadicPositional { loc, .. } => loc,
        ArgumentAttributeV::VariadicKeyword { loc, .. } => loc,
    }
}

impl ArgumentAttribute {
    /// The parameter name this attribute refers to.
    pub fn name(&self) -> (n: &String)
        ensures
            n@ == attr_name_spec(self@),
    {
        match self {
            ArgumentAttribute::PositionalDefault { name, .. } => name,
            ArgumentAttribute::KeywordOnly { name, .. } => name,
            ArgumentAttribute::VariadicPositional { name, .. } => name,
            ArgumentAttribute::VariadicKeyword { name, .. } => name,
        }
    }

    /// The source location of this attribute.
    pub fn loc(&self) -> (l: SrcLoc)
        ensures
            l == attr_loc_spec(self@),
    {
        match self {
            ArgumentAttribute::PositionalDefault { loc, .. } => *loc,
            ArgumentAttribute::KeywordOnly { loc, .. } => *loc,
            ArgumentAttribute::VariadicPositional { loc, .. } => *loc,
            ArgumentAttribute::VariadicKeyword { loc, .. } => *loc,
        }
    }
}

/// True when some attribute among `entries` refers to parameter `n`.
pub open spec fn entries_name_taken(entries: Seq<ArgumentAttributeV>, n: Seq<char>) -> bool {
    exists|i: int| 0 <= i < entries.len() && attr_name_spec(entries[i]) == n
}

/// The attribute among `entries` that refers to `n`, when one exists.
pub open spec fn table_lookup(entries: Seq<ArgumentAttributeV>, n: Seq<char>) -> Option<
    ArgumentAttributeV,
> {
    if entries_name_taken(entries, n) {
        Some(entries[choose|i: int| 0 <= i < entries.len() && attr_name_spec(entries[i]) == n])
    } else {
        None
    }
}

/// Every entry refers to a distinct parameter name.
pub open spec fn entries_unique(entries: Seq<ArgumentAttributeV>) -> bool {
    forall|i: int, j: int|
        0 <= i < j < entries.len() ==> attr_name_spec(entries[i]) != attr_name_spec(entries[j])
}

/// State of table construction: accepted entries and rejected attributes.
#[verifier::ext_equal]
pub struct TableBuildV {
    pub entries: Seq<ArgumentAttributeV>,
    pub diags: Seq<DiagnosticV>,
}

/// One step of table construction: an attribute naming a parameter absent
/// from the declaration is an UnknownParameter error carrying the unmatched
/// name; a second attribute on one parameter is a conflict; otherwise the
/// attribute is accepted.
pub open spec fn table_step(
    st: TableBuildV,
    a: ArgumentAttributeV,
    names: Seq<Seq<char>>,
) -> TableBuildV {
    let n = attr_name_spec(a);
    if !names.contains(n) {
        TableBuildV {
            diags: st.diags.push(
                DiagnosticV {
                    kind: ErrorKind::UnknownParameter,
                    message: "unknown parameter: "@ + n,
                    loc: attr_loc_spec(a),
                },
            ),
            ..st
        }
    } else if entries_name_taken(st.entries, n) {
        TableBuildV {
            diags: st.diags.push(
                DiagnosticV {
                    kind: ErrorKind::StructuralConflict,
                    message: "parameter has more than one argument attribute"@,
                    loc: attr_loc_spec(a),
                },
            ),
            ..st
        }
    } else {
        TableBuildV { entries: st.entries.push(a), ..st }
    }
}

/// Table construction after the first `n` attributes.
pub open spec fn table_upto(
    attrs: Seq<ArgumentAttributeV>,
    names: Seq<Seq<char>>,
    n: int,
) -> TableBuildV
    decreases n,
{
    if n <= 0 {
        TableBuildV { entries: Seq::empty(), diags: Seq::empty() }
    } else {
        table_step(table_upto(attrs, names, n - 1), attrs[n - 1], names)
    }
}

/// Table construction over all classified argument attributes.
pub open spec fn table_spec(attrs: Seq<ArgumentAttributeV>, names: Seq<Seq<char>>) -> TableBuildV {
    table_upto(attrs, names, attrs.len() as int)
}

/// Accepted entries always refer to distinct names of the declaration.
pub proof fn lemma_table_upto_unique(
    attrs: Seq<ArgumentAttributeV>,
    names: Seq<Seq<char>>,
    n: int,
)
    ensures
        entries_unique(table_upto(attrs, names, n).entries),
    decreases n,
{
    if n > 0 {
        lemma_table_upto_unique(attrs, names, n - 1);
    }
}

/// True when some accepted entry already refers to parameter `n`.
fn entries_contain(entries: &Vec<ArgumentAttribute>, n: &str) -> (b: bool)
    ensures
        b == entries_name_taken(entries.deep_view(), n@),
{
    let mut j: usize = 0;
    while j < entries.len()
        invariant
            j <= entries@.len(),
            forall|k: int| 0 <= k < j ==> attr_name_spec(entries.deep_view()[k]) != n@,
        decreases entries@.len() - j,
    {
        if str_eq(entries[j].name().as_str(), n) {
            assert(attr_name_spec(entries.deep_view()[j as int]) == n@);
            return true;
        }
        j += 1;
    }
    assert(!entries_name_taken(entries.deep_view(), n@));
    false
}

/// True when some name in `names` equals `n`.
pub fn name_list_contains(names: &Vec<String>, n: &str) -> (b: bool)
    ensures
        b == names.deep_view().contains(n@),
{
    let mut i: usize = 0;
    while i < names.len()
        invariant
            i <= names@.len(),
            forall|j: int| 0 <= j < i ==> names.deep_view()[j] != n@,
        decreases names@.len() - i,
    {
        if str_eq(names[i].as_str(), n) {
            assert(names.deep_view()[i as int] == n@);
            return true;
        }
        i += 1;
    }
    assert(!names.deep_view().contains(n@));
    false
}

/// The name-keyed lookup of argument attributes consumed by the assembler.
#[derive(Debug, PartialEq, Eq)]
pub struct ArgumentAttributeTable {
    entries: Vec<ArgumentAttribute>,
}

impl View for ArgumentAttributeTable {
    type V = Seq<ArgumentAttributeV>;

    closed spec fn view(&self) -> Seq<ArgumentAttributeV> {
        self.entries.deep_view()
    }
}

impl ArgumentAttributeTable {
    /// The table's entries refer to pairwise distinct parameter names.
    pub open spec fn wf(&self) -> bool {
        entries_unique(self@)
    }

    /// Builds the table from the classified attributes, checking each against
    /// the declaration's non-receiver parameter names.
    pub fn build(attrs: &Vec<ArgumentAttribute>, names: &Vec<String>) -> (r: (
        ArgumentAttributeTable,
        Vec<Diagnostic>,
    ))
        ensures
            r.0@ == table_spec(attrs.deep_view(), names.deep_view()).entries,
            r.1.deep_view() == table_spec(attrs.deep_view(), names.deep_view()).diags,
            r.0.wf(),
    {
        let ghost av = attrs.deep_view();
        let ghost nv = names.deep_view();
        let mut entries: Vec<ArgumentAttribute> = Vec::new();
        let mut diags: Vec<Diagnostic> = Vec::new();
        let mut i: usize = 0;
        while i < attrs.len()
            invariant
                i <= attrs@.len(),
                av == attrs.deep_view(),
                nv == names.deep_view(),
                entries.deep_view() == table_upto(av, nv, i as int).entries,
                diags.deep_view() == table_upto(av, nv, i as int).diags,
            decreases attrs@.len() - i,
        {
            let a = &attrs[i];
            assert(a@ == av[i as int]);
            let n = a.name();
            let ghost pre_e = entries.deep_view();
            let ghost pre_d = diags.deep_view();
            if !name_list_contains(names, n.as_str()) {
                let msg = "unknown parameter: ".to_owned().concat(n.as_str());
                diags.push(Diagnostic {
                    kind: ErrorKind::UnknownParameter,
                    message: msg,
                    loc: a.loc(),
                });
                proof {
                    assert(diags.deep_view() =~= pre_d.push(
                        DiagnosticV {
                            kind: ErrorKind::UnknownParameter,
                            message: "unknown parameter: "@ + attr_name_spec(av[i as int]),
                            loc: attr_loc_spec(av[i as int]),
                        },
                    ));
                }
            } else {
                let taken = entries_contain(&entries, n.as_str());
                if taken {
                    diags.push(
                        crate::diag::diag(
                            ErrorKind::StructuralConflict,
                            "parameter has more than one argument attribute",
                            a.loc(),
                        ),
                    );
                    proof {
                        assert(diags.deep_view() =~= pre_d.push(
                            DiagnosticV {
                                kind: ErrorKind::StructuralConflict,
                                message: "parameter has more than one argument attribute"@,
                                loc: attr_loc_spec(av[i as int]),
                            },
                        ));
                    }
                } else {
                    assert(!entries_name_taken(pre_e, n@));
                    entries.push(a.clone());
                    proof {
                        assert(entries.deep_view() =~= pre_e.push(av[i as int]));
                    }
                }
            }
            proof {
                assert(table_upto(av, nv, i as int + 1) == table_step(
                    table_upto(av, nv, i as int),
                    av[i as int],
                    nv,
                ));
            }
            i += 1;
        }
        assert(av.len() == attrs@.len());
        let table = ArgumentAttributeTable { entries };
        proof {
            lemma_table_upto_unique(av, nv, av.len() as int);
        }
        (table, diags)
    }

    /// Finds the attribute for parameter `name`, if any.
    pub fn find(&self, name: &str) -> (r: Option<&ArgumentAttribute>)
        requires
            self.wf(),
        ensures
            match r {
                Some(a) => table_lookup(self@, name@) == Some(a@),
                None => table_lookup(self@, name@) is None,
            },
    {
        let mut i: usize = 0;
        while i < self.entries.len()
            invariant
                i <= self@.len(),
                self.wf(),
                forall|j: int| 0 <= j < i ==> attr_name_spec(self@[j]) != name@,
            decreases self@.len() - i,
        {
            if str_eq(self.entries[i].name().as_str(), name) {
                proof {
                    assert(attr_name_spec(self@[i as int]) == name@);
                    assert(entries_name_taken(self@, name@));
                    let k = choose|k: int|
                        0 <= k < self@.len() && attr_name_spec(self@[k]) == name@;
                    assert(k == i as int);
                }
                return Some(&self.entries[i]);
            }
            i += 1;
        }
        assert(!entries_name_taken(self@, name@));
        None
    }

    /// Relied on by the assembler: whether `name` collects extra positional
    /// arguments.
    pub fn is_args(&self, name: &str) -> (b: bool)
        requires
            self.wf(),
        ensures
            b == (table_lookup(self@, name@) matches Some(a)
                && a is VariadicPositional),
    {
        match self.find(name) {
            Some(a) => matches!(a, ArgumentAttribute::VariadicPositional { .. }),
            None => false,
        }
    }

    /// Whether `name` collects extra keyword arguments.
    pub fn is_kwargs(&self, name: &str) -> (b: bool)
        requires
            self.wf(),
        ensures
            b == (table_lookup(self@, name@) matches Some(a) && a is VariadicKeyword),
    {
        match self.find(name) {
            Some(a) => matches!(a, ArgumentAttribute::VariadicKeyword { .. }),
            None => false,
        }
    }

    /// Whether `name` may only be passed as a keyword argument.
    pub fn is_kw_only(&self, name: &str) -> (b: bool)
        requires
            self.wf(),
        ensures
            b == (table_lookup(self@, name@) matches Some(a) && a is KeywordOnly),
    {
        match self.find(name) {
            Some(a) => matches!(a, ArgumentAttribute::KeywordOnly { .. }),
            None => false,
        }
    }

    /// The default expression recorded for `name`, as unparsed source text.
    pub fn default_value(&self, name: &str) -> (r: Option<String>)
        requires
            self.wf(),
        ensures
            match r {
                Some(e) => default_of(self@, name@) == Some(e@),
                None => default_of(self@, name@) is None,
            },
    {
        match self.find(name) {
            Some(ArgumentAttribute::PositionalDefault { expr: Some(e), .. }) => Some(e.clone()),
            Some(ArgumentAttribute::KeywordOnly { expr: Some(e), .. }) => Some(e.clone()),
            _ => None,
        }
    }
}

/// The default expression the table records for `n`, if any.
pub open spec fn default_of(entries: Seq<ArgumentAttributeV>, n: Seq<char>) -> Option<Seq<char>> {
    match table_lookup(entries, n) {
        Some(ArgumentAttributeV::PositionalDefault { expr, .. }) => expr,
        Some(ArgumentAttributeV::KeywordOnly { expr, .. }) => expr,
        _ => None,
    }
}

/// How one parameter takes part in the dynamic calling convention.
#[derive(Clone, Copy, Debug, PartialEq, Eq, Structural)]
pub enum ParameterRole {
    Positional,
    KeywordOnly,
    VariadicPositional,
    VariadicKeyword,
}

/// The role the table assigns to parameter `n`; positional when no attribute
/// says otherwise.
pub open spec fn role_of(entries: Seq<ArgumentAttributeV>, n: Seq<char>) -> ParameterRole {
    match table_lookup(entries, n) {
        Some(ArgumentAttributeV::VariadicPositional { .. }) => ParameterRole::VariadicPositional,
        Some(ArgumentAttributeV::VariadicKeyword { .. }) => ParameterRole::VariadicKeyword,
        Some(ArgumentAttributeV::KeywordOnly { .. }) => ParameterRole::KeywordOnly,
        _ => ParameterRole::Positional,
    }
}

impl ArgumentAttributeTable {
    /// The role of parameter `name` under this table.
    pub fn role(&self, name: &str) -> (r: ParameterRole)
        requires
            self.wf(),
        ensures
            r == role_of(self@, name@),
    {
        match self.find(name) {
            Some(ArgumentAttribute::VariadicPositional { .. }) => ParameterRole::VariadicPositional,
            Some(ArgumentAttribute::VariadicKeyword { .. }) => ParameterRole::VariadicKeyword,
            Some(ArgumentAttribute::KeywordOnly { .. }) => ParameterRole::KeywordOnly,
            _ => ParameterRole::Positional,
        }
    }
}

} // verus!
