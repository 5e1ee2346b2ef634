//! The build compiler: turns a dynamic document into validated build
//! instructions, or fails with every schema violation collected in one pass.

use vstd::prelude::*;

use crate::doc::{DocEntry, DocValue, Document, spec_lookup};
use crate::errors::{
    BuildError, BuildErrorV, BuildValidationError, Expected, errs_view,
};
use crate::extract::{
    elem_key, elem_path, path_field, record_path, record_string, spec_path_field,
    spec_record_path, spec_record_string, spec_string_field, string_field, top_key, top_path,
};

verus! {

/// One environment-variable-to-directory association.
#[derive(Debug, PartialEq, Eq)]
pub struct EnvDir {
    /// Name of the environment variable bound to this directory.
    pub name: String,
    pub path: String,
}

/// One file the environment must contain.
#[derive(Debug, PartialEq, Eq)]
pub struct File {
    pub path: String,
    pub content: String,
}

/// Fully validated build intent.
#[derive(Debug, PartialEq, Eq)]
pub struct BuildInstructions {
    /// Root directory of the environment; the shell starts here.
    pub dir: String,
    /// Target shell family, one of the supported set.
    pub family: String,
    /// Identifier of this environment instance.
    pub tag: String,
    /// Setup command text run before the shell is spawned.
    pub hooks: String,
    /// Environment bindings, in declaration order.
    pub sub_dirs: Vec<EnvDir>,
    /// Generated files, in declaration order.
    pub files: Vec<File>,
}

impl EnvDir {
    /// A copy with the same fields.
    pub fn duplicate(&self) -> (r: EnvDir)
        ensures
            r == *self,
    {
        EnvDir { name: self.name.clone(), path: self.path.clone() }
    }
}

impl File {
    /// A copy with the same fields.
    pub fn duplicate(&self) -> (r: File)
        ensures
            r == *self,
    {
        File { path: self.path.clone(), content: self.content.clone() }
    }
}

/// What converting one list element into an environment binding yields:
/// the record's `name` and `path` fields, or the diagnostics of the fields
/// that failed, in field order.
pub open spec fn spec_binding_at(v: DocValue, key: Seq<char>, i: int) -> Result<
    EnvDir,
    Seq<BuildErrorV>,
> {
    match v {
        DocValue::Table(fields) => match (
            spec_record_string(fields@, key, i, "name"@),
            spec_record_path(fields@, key, i, "path"@),
        ) {
            (Ok(n), Ok(p)) => Ok(EnvDir { name: n, path: p }),
            (Ok(_), Err(e)) => Err(seq![e]),
            (Err(e), Ok(_)) => Err(seq![e]),
            (Err(e1), Err(e2)) => Err(seq![e1, e2]),
        },
        _ => Err(seq![BuildErrorV::TypeMismatch(elem_path(key, i), Expected::Record)]),
    }
}

/// What converting one list element into a generated file yields.
pub open spec fn spec_file_at(v: DocValue, key: Seq<char>, i: int) -> Result<
    File,
    Seq<BuildErrorV>,
> {
    match v {
        DocValue::Table(fields) => match (
            spec_record_path(fields@, key, i, "path"@),
            spec_record_string(fields@, key, i, "content"@),
        ) {
            (Ok(p), Ok(c)) => Ok(File { path: p, content: c }),
            (Ok(_), Err(e)) => Err(seq![e]),
            (Err(e), Ok(_)) => Err(seq![e]),
            (Err(e1), Err(e2)) => Err(seq![e1, e2]),
        },
        _ => Err(seq![BuildErrorV::TypeMismatch(elem_path(key, i), Expected::Record)]),
    }
}

/// What converting the first `n` elements yields: all bindings, or every
/// failing element's diagnostics in element order.
pub open spec fn spec_bindings_prefix(items: Seq<DocValue>, key: Seq<char>, n: int) -> Result<
    Seq<EnvDir>,
    Seq<BuildErrorV>,
>
    decreases n,
{
    if n <= 0 {
        Ok(Seq::empty())
    } else {
        match (spec_bindings_prefix(items, key, n - 1), spec_binding_at(items[n - 1], key, n - 1)) {
            (Ok(s), Ok(d)) => Ok(s.push(d)),
            (Ok(_), Err(es)) => Err(es),
            (Err(ps), Ok(_)) => Err(ps),
            (Err(ps), Err(es)) => Err(ps + es),
        }
    }
}

/// What converting the first `n` elements into files yields.
pub open spec fn spec_files_prefix(items: Seq<DocValue>, key: Seq<char>, n: int) -> Result<
    Seq<File>,
    Seq<BuildErrorV>,
>
    decreases n,
{
    if n <= 0 {
        Ok(Seq::empty())
    } else {
        match (spec_files_prefix(items, key, n - 1), spec_file_at(items[n - 1], key, n - 1)) {
            (Ok(s), Ok(f)) => Ok(s.push(f)),
            (Ok(_), Err(es)) => Err(es),
            (Err(ps), Ok(_)) => Err(ps),
            (Err(ps), Err(es)) => Err(ps + es),
        }
    }
}

/// What extracting the binding list at top-level `key` yields.
pub open spec fn spec_bindings(entries: Seq<DocEntry>, key: Seq<char>) -> Result<
    Seq<EnvDir>,
    Seq<BuildErrorV>,
> {
    match spec_lookup(entries, key) {
        None => Err(seq![BuildErrorV::MissingKey(top_path(key))]),
        Some(DocValue::List(items)) => spec_bindings_prefix(items@, key, items@.len() as int),
        Some(_) => Err(seq![BuildErrorV::TypeMismatch(top_path(key), Expected::List)]),
    }
}

/// What extracting the file list at top-level `key` yields.
pub open spec fn spec_files(entries: Seq<DocEntry>, key: Seq<char>) -> Result<
    Seq<File>,
    Seq<BuildErrorV>,
> {
    match spec_lookup(entries, key) {
        None => Err(seq![BuildErrorV::MissingKey(top_path(key))]),
        Some(DocValue::List(items)) => spec_files_prefix(items@, key, items@.len() as int),
        Some(_) => Err(seq![BuildErrorV::TypeMismatch(top_path(key), Expected::List)]),
    }
}

/// Convert one list element into an environment binding.
pub fn binding_at(v: &DocValue, key: &String, i: usize) -> (r: Result<EnvDir, Vec<BuildError>>)
    ensures
        match r {
            Ok(d) => spec_binding_at(*v, key@, i as int) == Ok::<EnvDir, Seq<BuildErrorV>>(d),
            Err(es) => es@.len() > 0 && spec_binding_at(*v, key@, i as int) == Err::<
                EnvDir,
                Seq<BuildErrorV>,
            >(errs_view(es@)),
        },
{
    match v {
        DocValue::Table(fields) => {
            let k_name: String = "name".to_owned();
            let k_path: String = "path".to_owned();
            let name = record_string(fields, key, i, &k_name);
            let path = record_path(fields, key, i, &k_path);
            match (name, path) {
                (Ok(n), Ok(p)) => Ok(EnvDir { name: n, path: p }),
                (Ok(_), Err(e)) => {
                    let es = vec![e];
                    proof {
                        assert(errs_view(es@) =~= seq![es@[0]@]);
                    }
                    Err(es)
                },
                (Err(e), Ok(_)) => {
                    let es = vec![e];
                    proof {
                        assert(errs_view(es@) =~= seq![es@[0]@]);
                    }
                    Err(es)
                },
                (Err(e1), Err(e2)) => {
                    let es = vec![e1, e2];
                    proof {
                        assert(errs_view(es@) =~= seq![es@[0]@, es@[1]@]);
                    }
                    Err(es)
                },
            }
        },
        _ => {
            let es = vec![
                BuildError::TypeMismatch(elem_key(key, i), Expected::Record),
            ];
            proof {
                assert(errs_view(es@) =~= seq![es@[0]@]);
            }
            Err(es)
        },
    }
}

/// Convert one list element into a generated file.
pub fn file_at(v: &DocValue, key: &String, i: usize) -> (r: Result<File, Vec<BuildError>>)
    ensures
        match r {
            Ok(f) => spec_file_at(*v, key@, i as int) == Ok::<File, Seq<BuildErrorV>>(f),
            Err(es) => es@.len() > 0 && spec_file_at(*v, key@, i as int) == Err::<
                File,
                Seq<BuildErrorV>,
            >(errs_view(es@)),
        },
{
    match v {
        DocValue::Table(fields) => {
            let k_path: String = "path".to_owned();
            let k_content: String = "content".to_owned();
            let path = record_path(fields, key, i, &k_path);
            let content = record_string(fields, key, i, &k_content);
            match (path, content) {
                (Ok(p), Ok(c)) => Ok(File { path: p, content: c }),
                (Ok(_), Err(e)) => {
                    let es = vec![e];
                    proof {
                        assert(errs_view(es@) =~= seq![es@[0]@]);
                    }
                    Err(es)
                },
                (Err(e), Ok(_)) => {
                    let es = vec![e];
                    proof {
                        assert(errs_view(es@) =~= seq![es@[0]@]);
                    }
                    Err(es)
                },
                (Err(e1), Err(e2)) => {
                    let es = vec![e1, e2];
                    proof {
                        assert(errs_view(es@) =~= seq![es@[0]@, es@[1]@]);
                    }
                    Err(es)
                },
            }
        },
        _ => {
            let es = vec![
                BuildError::TypeMismatch(elem_key(key, i), Expected::Record),
            ];
            proof {
                assert(errs_view(es@) =~= seq![es@[0]@]);
            }
            Err(es)
        },
    }
}

/// Extract the environment-binding list at top-level `key`.
pub fn bindings_field(doc: &Document, key: &String) -> (r: Result<Vec<EnvDir>, Vec<BuildError>>)
    ensures
        match r {
            Ok(ds) => spec_bindings(doc.entries@, key@) == Ok::<Seq<EnvDir>, Seq<BuildErrorV>>(
                ds@,
            ),
            Err(es) => es@.len() > 0 && spec_bindings(doc.entries@, key@) == Err::<
                Seq<EnvDir>,
                Seq<BuildErrorV>,
            >(errs_view(es@)),
        },
{
    match doc.lookup(key) {
        None => {
            let es = vec![BuildError::MissingKey(top_key(key))];
            proof {
                assert(errs_view(es@) =~= seq![es@[0]@]);
            }
            Err(es)
        },
        Some(DocValue::List(items)) => {
            let n = items.len();
            let mut dirs: Vec<EnvDir> = Vec::new();
            let mut errs: Vec<BuildError> = Vec::new();
            for j in 0..n
                invariant
                    n == items@.len(),
                    errs@.len() == 0 ==> spec_bindings_prefix(items@, key@, j as int) == Ok::<
                        Seq<EnvDir>,
                        Seq<BuildErrorV>,
                    >(dirs@),
                    errs@.len() > 0 ==> spec_bindings_prefix(items@, key@, j as int) == Err::<
                        Seq<EnvDir>,
                        Seq<BuildErrorV>,
                    >(errs_view(errs@)),
            {
                match binding_at(&items[j], key, j) {
                    Ok(d) => {
                        if errs.len() == 0 {
                            dirs.push(d);
                        }
                    },
                    Err(mut es2) => {
                        let ghost old_errs = errs@;
                        let ghost new_errs = es2@;
                        errs.append(&mut es2);
                        proof {
                            assert(errs@ == old_errs + new_errs);
                            assert(errs_view(errs@) =~= errs_view(old_errs) + errs_view(new_errs));
                            if old_errs.len() == 0 {
                                assert(errs_view(old_errs) =~= Seq::<BuildErrorV>::empty());
                                assert(errs_view(errs@) =~= errs_view(new_errs));
                            }
                        }
                    },
                }
            }
            if errs.len() == 0 {
                Ok(dirs)
            } else {
                Err(errs)
            }
        },
        Some(_) => {
            let es = vec![BuildError::TypeMismatch(top_key(key), Expected::List)];
            proof {
                assert(errs_view(es@) =~= seq![es@[0]@]);
            }
            Err(es)
        },
    }
}

/// Extract the generated-file list at top-level `key`.
pub fn files_field(doc: &Document, key: &String) -> (r: Result<Vec<File>, Vec<BuildError>>)
    ensures
        match r {
            Ok(fs) => spec_files(doc.entries@, key@) == Ok::<Seq<File>, Seq<BuildErrorV>>(fs@),
            Err(es) => es@.len() > 0 && spec_files(doc.entries@, key@) == Err::<
                Seq<File>,
                Seq<BuildErrorV>,
            >(errs_view(es@)),
        },
{
    match doc.lookup(key) {
        None => {
            let es = vec![BuildError::MissingKey(top_key(key))];
            proof {
                assert(errs_view(es@) =~= seq![es@[0]@]);
            }
            Err(es)
        },
        Some(DocValue::List(items)) => {
            let n = items.len();
            let mut files: Vec<File> = Vec::new();
            let mut errs: Vec<BuildError> = Vec::new();
            for j in 0..n
                invariant
                    n == items@.len(),
                    errs@.len() == 0 ==> spec_files_prefix(items@, key@, j as int) == Ok::<
                        Seq<File>,
                        Seq<BuildErrorV>,
                    >(files@),
                    errs@.len() > 0 ==> spec_files_prefix(items@, key@, j as int) == Err::<
                        Seq<File>,
                        Seq<BuildErrorV>,
                    >(errs_view(errs@)),
            {
                match file_at(&items[j], key, j) {
                    Ok(f) => {
                        if errs.len() == 0 {
                            files.push(f);
                        }
                    },
                    Err(mut es2) => {
                        let ghost old_errs = errs@;
                        let ghost new_errs = es2@;
                        errs.append(&mut es2);
                        proof {
                            assert(errs@ == old_errs + new_errs);
                            assert(errs_view(errs@) =~= errs_view(old_errs) + errs_view(new_errs));
                            if old_errs.len() == 0 {
                                assert(errs_view(old_errs) =~= Seq::<BuildErrorV>::empty());
                                assert(errs_view(errs@) =~= errs_view(new_errs));
                            }
                        }
                    },
                }
            }
            if errs.len() == 0 {
                Ok(files)
            } else {
                Err(errs)
            }
        },
        Some(_) => {
            let es = vec![BuildError::TypeMismatch(top_key(key), Expected::List)];
            proof {
                assert(errs_view(es@) =~= seq![es@[0]@]);
            }
            Err(es)
        },
    }
}

/// A leading character of an environment-variable name.
pub open spec fn is_name_start(c: char) -> bool {
    c == '_' || ('a' as u32 <= c as u32 && c as u32 <= 'z' as u32) || (
    'A' as u32 <= c as u32 && c as u32 <= 'Z' as u32)
}

/// Any character of an environment-variable name.
pub open spec fn is_name_char(c: char) -> bool {
    is_name_start(c) || ('0' as u32 <= c as u32 && c as u32 <= '9' as u32)
}

/// A syntactically valid environment-variable identifier.
pub open spec fn valid_env_name(s: Seq<char>) -> bool {
    &&& s.len() > 0
    &&& is_name_start(s[0])
    &&& forall|k: int| 0 <= k < s.len() ==> is_name_char(#[trigger] s[k])
}

/// Whether `s` is a syntactically valid environment-variable identifier.
pub fn check_env_name(s: &String) -> (r: bool)
    ensures
        r == valid_env_name(s@),
{
    let n = s.as_str().unicode_len();
    if n == 0 {
        return false;
    }
    let c0 = s.as_str().get_char(0);
    if !(c0 == '_' || ('a' as u32 <= c0 as u32 && c0 as u32 <= 'z' as u32) || ('A' as u32
        <= c0 as u32 && c0 as u32 <= 'Z' as u32)) {
        return false;
    }
    let mut k: usize = 1;
    while k < n
        invariant
            n == s@.len(),
            1 <= k <= n,
            is_name_start(s@[0]),
            forall|j: int| 0 <= j < k ==> is_name_char(#[trigger] s@[j]),
        decreases n - k,
    {
        let c = s.as_str().get_char(k);
        if !(c == '_' || ('a' as u32 <= c as u32 && c as u32 <= 'z' as u32) || ('A' as u32
            <= c as u32 && c as u32 <= 'Z' as u32) || ('0' as u32 <= c as u32 && c as u32
            <= '9' as u32)) {
            return false;
        }
        k += 1;
    }
    true
}

/// The supported shell families: a closed set.
pub open spec fn spec_supported_family(f: Seq<char>) -> bool {
    f == "zsh"@ || f == "posix-shell"@
}

/// Whether `f` names a supported shell family.
pub fn supported_family(f: &String) -> (r: bool)
    ensures
        r == spec_supported_family(f@),
{
    let z: String = "zsh".to_owned();
    let p: String = "posix-shell".to_owned();
    *f == z || *f == p
}

/// The diagnostics of one field extraction, as a list.
pub open spec fn errs_of<T>(r: Result<T, BuildErrorV>) -> Seq<BuildErrorV> {
    match r {
        Ok(_) => Seq::empty(),
        Err(e) => seq![e],
    }
}

/// The diagnostics of one list extraction.
pub open spec fn errs_of_list<T>(r: Result<T, Seq<BuildErrorV>>) -> Seq<BuildErrorV> {
    match r {
        Ok(_) => Seq::empty(),
        Err(es) => es,
    }
}

/// Identifier diagnostics of the first `n` bindings, in order.
pub open spec fn spec_name_errors(ds: Seq<EnvDir>, n: int) -> Seq<BuildErrorV>
    decreases n,
{
    if n <= 0 {
        Seq::empty()
    } else {
        spec_name_errors(ds, n - 1) + if valid_env_name(ds[n - 1].name@) {
            Seq::empty()
        } else {
            seq![BuildErrorV::InvalidEnvName(ds[n - 1].name@)]
        }
    }
}

/// Duplicate-name diagnostics of the first `n` bindings: one per binding that
/// repeats an earlier name.
pub open spec fn spec_dup_binding_errors(ds: Seq<EnvDir>, n: int) -> Seq<BuildErrorV>
    decreases n,
{
    if n <= 0 {
        Seq::empty()
    } else {
        spec_dup_binding_errors(ds, n - 1) + if exists|i: int|
            0 <= i < n - 1 && #[trigger] ds[i].name@ == ds[n - 1].name@ {
            seq![BuildErrorV::DuplicateBinding(ds[n - 1].name@)]
        } else {
            Seq::empty()
        }
    }
}

/// Duplicate-path diagnostics of the first `n` files.
pub open spec fn spec_dup_file_errors(fs: Seq<File>, n: int) -> Seq<BuildErrorV>
    decreases n,
{
    if n <= 0 {
        Seq::empty()
    } else {
        spec_dup_file_errors(fs, n - 1) + if exists|i: int|
            0 <= i < n - 1 && #[trigger] fs[i].path@ == fs[n - 1].path@ {
            seq![BuildErrorV::DuplicateFile(fs[n - 1].path@)]
        } else {
            Seq::empty()
        }
    }
}

/// The family diagnostic, when the field extracted but names no supported
/// family.
pub open spec fn spec_family_errors(entries: Seq<DocEntry>) -> Seq<BuildErrorV> {
    match spec_string_field(entries, "family"@) {
        Ok(f) => if spec_supported_family(f@) {
            Seq::empty()
        } else {
            seq![BuildErrorV::UnsupportedFamily(f@)]
        },
        Err(_) => Seq::empty(),
    }
}

/// The binding-validation diagnostics, when the binding list extracted.
pub open spec fn spec_binding_validation(entries: Seq<DocEntry>) -> Seq<BuildErrorV> {
    match spec_bindings(entries, "env_var_dirs"@) {
        Ok(ds) => spec_name_errors(ds, ds.len() as int) + spec_dup_binding_errors(
            ds,
            ds.len() as int,
        ),
        Err(_) => Seq::empty(),
    }
}

/// The file-validation diagnostics, when the file list extracted.
pub open spec fn spec_file_validation(entries: Seq<DocEntry>) -> Seq<BuildErrorV> {
    match spec_files(entries, "files"@) {
        Ok(fs) => spec_dup_file_errors(fs, fs.len() as int),
        Err(_) => Seq::empty(),
    }
}

/// Every diagnostic of a document, in extraction order: the four scalar
/// fields, the two lists, then the semantic validations.
pub open spec fn spec_doc_errors(entries: Seq<DocEntry>) -> Seq<BuildErrorV> {
    errs_of(spec_path_field(entries, "dir"@)) + errs_of(spec_string_field(entries, "family"@))
        + errs_of(spec_string_field(entries, "descr"@)) + errs_of(
        spec_string_field(entries, "hooks"@),
    ) + errs_of_list(spec_bindings(entries, "env_var_dirs"@)) + errs_of_list(
        spec_files(entries, "files"@),
    ) + spec_family_errors(entries) + spec_binding_validation(entries) + spec_file_validation(
        entries,
    )
}

/// No two bindings share a name, every name is a valid identifier, and every
/// path is non-empty.
pub open spec fn wf_bindings(ds: Seq<EnvDir>) -> bool {
    &&& forall|k: int| 0 <= k < ds.len() ==> valid_env_name(#[trigger] ds[k].name@)
    &&& forall|k: int| 0 <= k < ds.len() ==> (#[trigger] ds[k].path@).len() > 0
    &&& forall|i: int, j: int| 0 <= i < j < ds.len() ==> ds[i].name@ != ds[j].name@
}

/// No two generated files share a path, and every path is non-empty.
pub open spec fn wf_files(fs: Seq<File>) -> bool {
    &&& forall|k: int| 0 <= k < fs.len() ==> (#[trigger] fs[k].path@).len() > 0
    &&& forall|i: int, j: int| 0 <= i < j < fs.len() ==> fs[i].path@ != fs[j].path@
}

/// Every binding a successful list extraction yields has a non-empty path.
proof fn lemma_bindings_prefix_paths(items: Seq<DocValue>, key: Seq<char>, n: int)
    ensures
        spec_bindings_prefix(items, key, n) matches Ok(s) ==> forall|k: int|
            0 <= k < s.len() ==> (#[trigger] s[k].path@).len() > 0,
    decreases n,
{
    if n > 0 {
        lemma_bindings_prefix_paths(items, key, n - 1);
    }
}

/// Every file a successful list extraction yields has a non-empty path.
proof fn lemma_files_prefix_paths(items: Seq<DocValue>, key: Seq<char>, n: int)
    ensures
        spec_files_prefix(items, key, n) matches Ok(s) ==> forall|k: int|
            0 <= k < s.len() ==> (#[trigger] s[k].path@).len() > 0,
    decreases n,
{
    if n > 0 {
        lemma_files_prefix_paths(items, key, n - 1);
    }
}

impl BuildInstructions {
    /// Validated build intent: non-empty root, supported family, well-formed
    /// and unique bindings, unique file paths.
    pub open spec fn wf(&self) -> bool {
        &&& self.dir@.len() > 0
        &&& spec_supported_family(self.family@)
        &&& wf_bindings(self.sub_dirs@)
        &&& wf_files(self.files@)
    }
}

proof fn lemma_name_errors_empty(ds: Seq<EnvDir>, n: int)
    requires
        n <= ds.len(),
        spec_name_errors(ds, n).len() == 0,
    ensures
        forall|k: int| 0 <= k < n ==> valid_env_name(#[trigger] ds[k].name@),
    decreases n,
{
    if n > 0 {
        lemma_name_errors_empty(ds, n - 1);
    }
}

proof fn lemma_dup_binding_errors_empty(ds: Seq<EnvDir>, n: int)
    requires
        n <= ds.len(),
        spec_dup_binding_errors(ds, n).len() == 0,
    ensures
        forall|i: int, j: int| 0 <= i < j < n ==> ds[i].name@ != ds[j].name@,
    decreases n,
{
    if n > 0 {
        lemma_dup_binding_errors_empty(ds, n - 1);
        assert forall|i: int, j: int| 0 <= i < j < n implies ds[i].name@ != ds[j].name@ by {
            if j < n - 1 {
            } else {
                assert(!(exists|i2: int| 0 <= i2 < n - 1 && #[trigger] ds[i2].name@ == ds[n
                    - 1].name@));
            }
        }
    }
}

proof fn lemma_dup_file_errors_empty(fs: Seq<File>, n: int)
    requires
        n <= fs.len(),
        spec_dup_file_errors(fs, n).len() == 0,
    ensures
        forall|i: int, j: int| 0 <= i < j < n ==> fs[i].path@ != fs[j].path@,
    decreases n,
{
    if n > 0 {
        lemma_dup_file_errors_empty(fs, n - 1);
        assert forall|i: int, j: int| 0 <= i < j < n implies fs[i].path@ != fs[j].path@ by {
            if j < n - 1 {
            } else {
                assert(!(exists|i2: int| 0 <= i2 < n - 1 && #[trigger] fs[i2].path@ == fs[n
                    - 1].path@));
            }
        }
    }
}

/// Identifier diagnostics of the bindings.
fn name_errors(ds: &Vec<EnvDir>) -> (r: Vec<BuildError>)
    ensures
        errs_view(r@) == spec_name_errors(ds@, ds@.len() as int),
{
    let mut errs: Vec<BuildError> = Vec::new();
    let n = ds.len();
    for j in 0..n
        invariant
            n == ds@.len(),
            errs_view(errs@) == spec_name_errors(ds@, j as int),
    {
        let ghost old_errs = errs@;
        if !check_env_name(&ds[j].name) {
            errs.push(BuildError::InvalidEnvName(ds[j].name.clone()));
            proof {
                assert(errs_view(errs@) =~= errs_view(old_errs) + seq![errs@.last()@]);
            }
        } else {
            proof {
                assert(spec_name_errors(ds@, j + 1) =~= spec_name_errors(ds@, j as int));
            }
        }
    }
    errs
}

/// Duplicate-name diagnostics of the bindings.
fn dup_binding_errors(ds: &Vec<EnvDir>) -> (r: Vec<BuildError>)
    ensures
        errs_view(r@) == spec_dup_binding_errors(ds@, ds@.len() as int),
{
    let mut errs: Vec<BuildError> = Vec::new();
    let n = ds.len();
    for j in 0..n
        invariant
            n == ds@.len(),
            errs_view(errs@) == spec_dup_binding_errors(ds@, j as int),
    {
        let mut found = false;
        for i in 0..j
            invariant
                j < n == ds@.len(),
                found <==> exists|i2: int|
                    0 <= i2 < i && #[trigger] ds@[i2].name@ == ds@[j as int].name@,
        {
            if ds[i].name == ds[j].name {
                found = true;
            }
        }
        let ghost old_errs = errs@;
        if found {
            errs.push(BuildError::DuplicateBinding(ds[j].name.clone()));
            proof {
                assert(errs_view(errs@) =~= errs_view(old_errs) + seq![errs@.last()@]);
            }
        } else {
            proof {
                assert(spec_dup_binding_errors(ds@, j + 1) =~= spec_dup_binding_errors(
                    ds@,
                    j as int,
                ));
            }
        }
    }
    errs
}

/// Duplicate-path diagnostics of the files.
fn dup_file_errors(fs: &Vec<File>) -> (r: Vec<BuildError>)
    ensures
        errs_view(r@) == spec_dup_file_errors(fs@, fs@.len() as int),
{
    let mut errs: Vec<BuildError> = Vec::new();
    let n = fs.len();
    for j in 0..n
        invariant
            n == fs@.len(),
            errs_view(errs@) == spec_dup_file_errors(fs@, j as int),
    {
        let mut found = false;
        for i in 0..j
            invariant
                j < n == fs@.len(),
                found <==> exists|i2: int|
                    0 <= i2 < i && #[trigger] fs@[i2].path@ == fs@[j as int].path@,
        {
            if fs[i].path == fs[j].path {
                found = true;
            }
        }
        let ghost old_errs = errs@;
        if found {
            errs.push(BuildError::DuplicateFile(fs[j].path.clone()));
            proof {
                assert(errs_view(errs@) =~= errs_view(old_errs) + seq![errs@.last()@]);
            }
        } else {
            proof {
                assert(spec_dup_file_errors(fs@, j + 1) =~= spec_dup_file_errors(fs@, j as int));
            }
        }
    }
    errs
}

proof fn lemma_errs_view_push(a: Seq<BuildError>, x: BuildError)
    ensures
        errs_view(a.push(x)) == errs_view(a) + seq![x@],
{
    assert(errs_view(a.push(x)) =~= errs_view(a) + seq![x@]);
}

proof fn lemma_errs_view_add(a: Seq<BuildError>, b: Seq<BuildError>)
    ensures
        errs_view(a + b) == errs_view(a) + errs_view(b),
{
    assert(errs_view(a + b) =~= errs_view(a) + errs_view(b));
}

proof fn lemma_add_empty(a: Seq<BuildErrorV>)
    ensures
        a + Seq::<BuildErrorV>::empty() == a,
{
    assert(a + Seq::<BuildErrorV>::empty() =~= a);
}

proof fn lemma_add_assoc(a: Seq<BuildErrorV>, b: Seq<BuildErrorV>, c: Seq<BuildErrorV>)
    ensures
        (a + b) + c == a + (b + c),
{
    assert((a + b) + c =~= a + (b + c));
}

/// Compile a document into validated build instructions, or fail with every
/// collected diagnostic. Reads nothing and writes nothing: a pure
/// compilation, so a failing document has no side effect of any kind.
#[verifier::rlimit(100)]
pub fn compile(doc: &Document) -> (r: Result<BuildInstructions, BuildValidationError>)
    ensures
        spec_doc_errors(doc.entries@).len() == 0 ==> (r matches Ok(b) && {
            &&& spec_path_field(doc.entries@, "dir"@) == Ok::<String, BuildErrorV>(b.dir)
            &&& spec_string_field(doc.entries@, "family"@) == Ok::<String, BuildErrorV>(b.family)
            &&& spec_string_field(doc.entries@, "descr"@) == Ok::<String, BuildErrorV>(b.tag)
            &&& spec_string_field(doc.entries@, "hooks"@) == Ok::<String, BuildErrorV>(b.hooks)
            &&& spec_bindings(doc.entries@, "env_var_dirs"@) == Ok::<Seq<EnvDir>, Seq<BuildErrorV>>(
                b.sub_dirs@,
            )
            &&& spec_files(doc.entries@, "files"@) == Ok::<Seq<File>, Seq<BuildErrorV>>(b.files@)
        }),
        spec_doc_errors(doc.entries@).len() > 0 ==> (r matches Err(f) && f@ == spec_doc_errors(
            doc.entries@,
        )),
        r matches Ok(b) ==> b.wf(),
{
    let k_dir: String = "dir".to_owned();
    let k_family: String = "family".to_owned();
    let k_descr: String = "descr".to_owned();
    let k_hooks: String = "hooks".to_owned();
    let k_bindings: String = "env_var_dirs".to_owned();
    let k_files: String = "files".to_owned();

    let dir_r = path_field(doc, &k_dir);
    let family_r = string_field(doc, &k_family);
    let descr_r = string_field(doc, &k_descr);
    let hooks_r = string_field(doc, &k_hooks);
    let bindings_r = bindings_field(doc, &k_bindings);
    let files_r = files_field(doc, &k_files);

    let mut errs: Vec<BuildError> = Vec::new();
    let ghost entries = doc.entries@;
    let ghost p1 = errs_of(spec_path_field(entries, "dir"@));
    let ghost p2 = errs_of(spec_string_field(entries, "family"@));
    let ghost p3 = errs_of(spec_string_field(entries, "descr"@));
    let ghost p4 = errs_of(spec_string_field(entries, "hooks"@));
    let ghost p5 = errs_of_list(spec_bindings(entries, "env_var_dirs"@));
    let ghost p6 = errs_of_list(spec_files(entries, "files"@));
    let ghost p7 = spec_family_errors(entries);
    let ghost p8 = spec_binding_validation(entries);
    let ghost p9 = spec_file_validation(entries);

    if let Err(e) = &dir_r {
        let ghost old_errs = errs@;
        errs.push(e.duplicate());
        proof {
            lemma_errs_view_push(old_errs, errs@.last());
            assert(errs_view(old_errs) =~= Seq::<BuildErrorV>::empty());
        }
    }
    let ghost a1 = p1;
    proof {
        if dir_r is Ok {
            assert(errs_view(errs@) =~= a1);
        } else {
            assert(errs_view(errs@) == a1);
        }
    }
    if let Err(e) = &family_r {
        let ghost old_errs = errs@;
        errs.push(e.duplicate());
        proof {
            lemma_errs_view_push(old_errs, errs@.last());
        }
    }
    let ghost a2 = a1 + p2;
    proof {
        if family_r is Ok {
            lemma_add_empty(a1);
        }
        assert(errs_view(errs@) == a2);
    }
    if let Err(e) = &descr_r {
        let ghost old_errs = errs@;
        errs.push(e.duplicate());
        proof {
            lemma_errs_view_push(old_errs, errs@.last());
        }
    }
    let ghost a3 = a2 + p3;
    proof {
        if descr_r is Ok {
            lemma_add_empty(a2);
        }
        assert(errs_view(errs@) == a3);
    }
    if let Err(e) = &hooks_r {
        let ghost old_errs = errs@;
        errs.push(e.duplicate());
        proof {
            lemma_errs_view_push(old_errs, errs@.last());
        }
    }
    let ghost a4 = a3 + p4;
    proof {
        if hooks_r is Ok {
            lemma_add_empty(a3);
        }
        assert(errs_view(errs@) == a4);
    }
    if let Err(es) = &bindings_r {
        let ghost old_errs = errs@;
        let mut es2 = duplicate_errs(es);
        let ghost new_errs = es2@;
        errs.append(&mut es2);
        proof {
            lemma_errs_view_add(old_errs, new_errs);
        }
    }
    let ghost a5 = a4 + p5;
    proof {
        if bindings_r is Ok {
            lemma_add_empty(a4);
        }
        assert(errs_view(errs@) == a5);
    }
    if let Err(es) = &files_r {
        let ghost old_errs = errs@;
        let mut es2 = duplicate_errs(es);
        let ghost new_errs = es2@;
        errs.append(&mut es2);
        proof {
            lemma_errs_view_add(old_errs, new_errs);
        }
    }
    let ghost a6 = a5 + p6;
    proof {
        if files_r is Ok {
            lemma_add_empty(a5);
        }
        assert(errs_view(errs@) == a6);
    }

    if let Ok(f) = &family_r {
        if !supported_family(f) {
            let ghost old_errs = errs@;
            errs.push(BuildError::UnsupportedFamily(f.clone()));
            proof {
                lemma_errs_view_push(old_errs, errs@.last());
            }
        }
    }
    let ghost a7 = a6 + p7;
    proof {
        if !(family_r matches Ok(ref f) && !spec_supported_family(f@)) {
            lemma_add_empty(a6);
        }
        assert(errs_view(errs@) == a7);
    }
    if let Ok(ds) = &bindings_r {
        let ghost old_errs = errs@;
        let mut es2 = name_errors(ds);
        let ghost name_errs = es2@;
        errs.append(&mut es2);
        proof {
            lemma_errs_view_add(old_errs, name_errs);
        }
        let ghost mid_errs = errs@;
        let mut es3 = dup_binding_errors(ds);
        let ghost dup_errs = es3@;
        errs.append(&mut es3);
        proof {
            lemma_errs_view_add(mid_errs, dup_errs);
            lemma_add_assoc(a7, errs_view(name_errs), errs_view(dup_errs));
        }
    }
    let ghost a8 = a7 + p8;
    proof {
        if bindings_r is Err {
            lemma_add_empty(a7);
        }
        assert(errs_view(errs@) == a8);
    }
    if let Ok(fs) = &files_r {
        let ghost old_errs = errs@;
        let mut es2 = dup_file_errors(fs);
        let ghost new_errs = es2@;
        errs.append(&mut es2);
        proof {
            lemma_errs_view_add(old_errs, new_errs);
        }
    }
    let ghost a9 = a8 + p9;
    proof {
        if files_r is Err {
            lemma_add_empty(a8);
        }
        assert(errs_view(errs@) == a9);
        assert(spec_doc_errors(entries) == a9);
    }

    if errs.len() > 0 {
        return Err(BuildValidationError { errors: errs });
    }
    match (dir_r, family_r, descr_r, hooks_r, bindings_r, files_r) {
        (Ok(dir), Ok(family), Ok(tag), Ok(hooks), Ok(sub_dirs), Ok(files)) => {
            let b = BuildInstructions { dir, family, tag, hooks, sub_dirs, files };
            proof {
                assert(p8.len() == 0 && p9.len() == 0 && p7.len() == 0);
                lemma_name_errors_empty(b.sub_dirs@, b.sub_dirs@.len() as int);
                lemma_dup_binding_errors_empty(b.sub_dirs@, b.sub_dirs@.len() as int);
                lemma_dup_file_errors_empty(b.files@, b.files@.len() as int);
                if let Some(DocValue::List(items)) = spec_lookup(entries, "env_var_dirs"@) {
                    lemma_bindings_prefix_paths(items@, "env_var_dirs"@, items@.len() as int);
                }
                if let Some(DocValue::List(items)) = spec_lookup(entries, "files"@) {
                    lemma_files_prefix_paths(items@, "files"@, items@.len() as int);
                }
            }
            Ok(b)
        },
        _ => {
            proof {
                assert(false);
            }
            Err(BuildValidationError { errors: Vec::new() })
        },
    }
}

/// A copy of a diagnostic list, element views kept.
fn duplicate_errs(es: &Vec<BuildError>) -> (r: Vec<BuildError>)
    ensures
        errs_view(r@) == errs_view(es@),
        r@.len() == es@.len(),
{
    let mut out: Vec<BuildError> = Vec::new();
    let n = es.len();
    for j in 0..n
        invariant
            n == es@.len(),
            out@.len() == j,
            errs_view(out@) == errs_view(es@.take(j as int)),
    {
        let ghost old_out = out@;
        out.push(es[j].duplicate());
        proof {
            assert(errs_view(out@) =~= errs_view(old_out) + seq![out@.last()@]);
            assert(errs_view(es@.take(j + 1)) =~= errs_view(es@.take(j as int)) + seq![es@[j as int]@]);
        }
    }
    proof {
        assert(es@.take(n as int) =~= es@);
    }
    out
}

/// A binding list whose names are all valid yields no identifier diagnostic.
pub proof fn lemma_name_errors_of_wf(ds: Seq<EnvDir>, n: int)
    requires
        n <= ds.len(),
        forall|k: int| 0 <= k < ds.len() ==> valid_env_name(#[trigger] ds[k].name@),
    ensures
        spec_name_errors(ds, n).len() == 0,
    decreases n,
{
    if n > 0 {
        lemma_name_errors_of_wf(ds, n - 1);
    }
}

/// A binding list without repeated names yields no duplicate diagnostic.
pub proof fn lemma_dup_binding_errors_of_wf(ds: Seq<EnvDir>, n: int)
    requires
        n <= ds.len(),
        forall|i: int, j: int| 0 <= i < j < ds.len() ==> ds[i].name@ != ds[j].name@,
    ensures
        spec_dup_binding_errors(ds, n).len() == 0,
    decreases n,
{
    if n > 0 {
        lemma_dup_binding_errors_of_wf(ds, n - 1);
        assert(!(exists|i: int| 0 <= i < n - 1 && #[trigger] ds[i].name@ == ds[n - 1].name@));
    }
}

/// A file list without repeated paths yields no duplicate diagnostic.
pub proof fn lemma_dup_file_errors_of_wf(fs: Seq<File>, n: int)
    requires
        n <= fs.len(),
        forall|i: int, j: int| 0 <= i < j < fs.len() ==> fs[i].path@ != fs[j].path@,
    ensures
        spec_dup_file_errors(fs, n).len() == 0,
    decreases n,
{
    if n > 0 {
        lemma_dup_file_errors_of_wf(fs, n - 1);
        assert(!(exists|i: int| 0 <= i < n - 1 && #[trigger] fs[i].path@ == fs[n - 1].path@));
    }
}

/// Law (fail-fast on a missing key): a document without a `family` key is
/// diagnosed with a `MissingKey` naming exactly `family`; and since
/// compilation is pure, a rejected document has caused no filesystem effect.
pub proof fn lemma_missing_family_reported(entries: Seq<DocEntry>)
    requires
        spec_lookup(entries, "family"@) is None,
    ensures
        spec_doc_errors(entries).len() > 0,
        spec_doc_errors(entries).contains(BuildErrorV::MissingKey(top_path("family"@))),
{
    let p1 = errs_of(spec_path_field(entries, "dir"@));
    let total = spec_doc_errors(entries);
    assert(total[p1.len() as int] == BuildErrorV::MissingKey(top_path("family"@)));
    assert(total.contains(BuildErrorV::MissingKey(top_path("family"@))));
}

/// Law (aggregated diagnostics): one pass reports independent violations
/// together: a document that lacks `hooks` and whose binding list also fails
/// carries both the `hooks` diagnostic and every binding diagnostic, in the
/// same report.
pub proof fn lemma_diagnostics_aggregate(entries: Seq<DocEntry>, e: BuildErrorV)
    requires
        spec_lookup(entries, "hooks"@) is None,
        (spec_bindings(entries, "env_var_dirs"@) matches Err(es) && es.contains(e)),
    ensures
        spec_doc_errors(entries).contains(BuildErrorV::MissingKey(top_path("hooks"@))),
        spec_doc_errors(entries).contains(e),
{
    let p1 = errs_of(spec_path_field(entries, "dir"@));
    let p2 = errs_of(spec_string_field(entries, "family"@));
    let p3 = errs_of(spec_string_field(entries, "descr"@));
    let p4 = errs_of(spec_string_field(entries, "hooks"@));
    let p5 = errs_of_list(spec_bindings(entries, "env_var_dirs"@));
    let total = spec_doc_errors(entries);
    let base = p1 + p2 + p3;
    assert(total[base.len() as int] == BuildErrorV::MissingKey(top_path("hooks"@)));
    assert(total.contains(BuildErrorV::MissingKey(top_path("hooks"@))));
    let i = choose|i: int| 0 <= i < p5.len() && p5[i] == e;
    assert(total[base.len() + p4.len() + i] == e);
    assert(total.contains(e));
}

} // verus!
