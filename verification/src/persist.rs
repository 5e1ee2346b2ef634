//! Reading and writing documents as TOML text. The parser and serializer are
//! the outside crate's; everything that interprets or produces the document
//! tree itself is verified, and a plan is persisted through the document of
//! its bindings and files, from which the action and teardown lists are
//! rederived (the teardown list being the structural inverse of the actions,
//! this loses nothing).

use vstd::prelude::*;

use crate::compile::{
    BuildInstructions, EnvDir, File, lemma_dup_binding_errors_of_wf, lemma_dup_file_errors_of_wf,
    lemma_name_errors_of_wf, spec_bindings, spec_binding_at, spec_bindings_prefix,
    spec_doc_errors, spec_files, spec_file_at, spec_files_prefix,
};
use crate::plan::{
    InstallInstructions, bindings_of_plan, files_of_plan, spec_bindings_of_plan,
    spec_files_of_plan,
};
use crate::extract::{spec_path_field, spec_string_field};
use crate::doc::{DocEntry, DocValue, Document, spec_lookup};
use crate::errors::BuildErrorV;

verus! {

#[verifier::external_type_specification]
#[verifier::external_body]
pub struct ExTomlValue(toml::Value);

/// The document tree that the TOML parser yields on `s`, `None` where `s` is
/// not well-formed TOML: a function of the text alone.
pub uninterp spec fn toml_doc(s: Seq<char>) -> Option<Document>;

/// The TOML text that the serializer yields on `d`, `None` where `d` cannot
/// be carried by a TOML document: a function of the tree alone.
pub uninterp spec fn toml_text_of(d: Document) -> Option<Seq<char>>;

/// Relies on `toml::Value`'s variants: converts a parsed TOML node into the
/// library's document node, one variant arm each; strings stay strings,
/// arrays become lists, tables become entry lists in the table's order, and
/// every other scalar becomes `Other`.
#[verifier::external_body]
fn doc_value_of(v: &toml::Value) -> DocValue {
    match v {
        toml::Value::String(s) => DocValue::Str(s.clone()),
        toml::Value::Array(items) => DocValue::List(items.iter().map(doc_value_of).collect()),
        toml::Value::Table(t) => DocValue::Table(
            t.iter().map(|(k, w)| DocEntry { key: k.clone(), value: doc_value_of(w) }).collect(),
        ),
        _ => DocValue::Other,
    }
}

/// Relies on `toml::Table`'s `FromStr` (the TOML parser): well-formed text
/// parses to its top-level table, the same text always to the same tree;
/// ill-formed text yields the parser's message.
#[verifier::external_body]
pub(crate) fn parse_document(s: &str) -> (r: Result<Document, String>)
    ensures
        match r {
            Ok(d) => toml_doc(s@) == Some(d),
            Err(_) => toml_doc(s@) is None,
        },
{
    match s.parse::<toml::Table>() {
        Ok(t) => Ok(
            Document {
                entries: t.iter().map(
                    |(k, w)| DocEntry { key: k.clone(), value: doc_value_of(w) },
                ).collect(),
            },
        ),
        Err(e) => Err(e.to_string()),
    }
}

/// Relies on `toml::Value`'s constructors: builds the TOML node of a document
/// node, one variant arm each; `Other`, which no rendered document of this
/// library contains, is written as an empty string.
#[verifier::external_body]
fn toml_value_of(v: &DocValue) -> toml::Value {
    match v {
        DocValue::Str(s) => toml::Value::String(s.clone()),
        DocValue::List(items) => toml::Value::Array(items.iter().map(toml_value_of).collect()),
        DocValue::Table(entries) => {
            let mut t = toml::Table::new();
            for e in entries.iter() {
                t.insert(e.key.clone(), toml_value_of(&e.value));
            }
            toml::Value::Table(t)
        },
        DocValue::Other => toml::Value::String(String::new()),
    }
}

/// Relies on `toml::to_string` (the TOML serializer): serializing a table is
/// deterministic in its argument; it fails only on values a TOML document
/// cannot carry.
#[verifier::external_body]
pub(crate) fn render_document(d: &Document) -> (r: Option<String>)
    ensures
        match r {
            Some(s) => toml_text_of(*d) == Some(s@),
            None => toml_text_of(*d) is None,
        },
{
    let mut t = toml::Table::new();
    for e in d.entries.iter() {
        t.insert(e.key.clone(), toml_value_of(&e.value));
    }
    toml::to_string(&t).ok()
}

/// A two-field record node `{ a_key = a_val, b_key = b_val }`.
fn record_node(a_key: &str, a_val: &String, b_key: &str, b_val: &String) -> (v: DocValue)
    ensures
        (v matches DocValue::Table(fields) && {
            &&& fields@.len() == 2
            &&& spec_lookup(fields@, a_key@) == Some(DocValue::Str(*a_val))
            &&& a_key@ != b_key@ ==> spec_lookup(fields@, b_key@) == Some(DocValue::Str(*b_val))
        }),
{
    let mut fields: Vec<DocEntry> = Vec::new();
    fields.push(DocEntry { key: a_key.to_owned(), value: DocValue::Str(a_val.clone()) });
    fields.push(DocEntry { key: b_key.to_owned(), value: DocValue::Str(b_val.clone()) });
    proof {
        assert(spec_lookup(fields@, a_key@) == Some(DocValue::Str(*a_val)));
        if a_key@ != b_key@ {
            assert(fields@.drop_first() =~= seq![fields@[1]]);
            assert(spec_lookup(fields@, b_key@) == spec_lookup(fields@.drop_first(), b_key@));
            assert(spec_lookup(fields@, b_key@) == Some(DocValue::Str(*b_val)));
        }
    }
    DocValue::Table(fields)
}

proof fn lemma_bindings_prefix_of_items(items: Seq<DocValue>, key: Seq<char>, ds: Seq<EnvDir>, n: int)
    requires
        0 <= n <= items.len(),
        n <= ds.len(),
        forall|k: int|
            0 <= k < n ==> spec_binding_at(#[trigger] items[k], key, k) == Ok::<
                EnvDir,
                Seq<BuildErrorV>,
            >(ds[k]),
    ensures
        spec_bindings_prefix(items, key, n) == Ok::<Seq<EnvDir>, Seq<BuildErrorV>>(ds.take(n)),
    decreases n,
{
    if n <= 0 {
        assert(ds.take(0) =~= Seq::<EnvDir>::empty());
    } else {
        lemma_bindings_prefix_of_items(items, key, ds, n - 1);
        assert(ds.take(n) =~= ds.take(n - 1).push(ds[n - 1]));
    }
}

proof fn lemma_files_prefix_of_items(items: Seq<DocValue>, key: Seq<char>, fs: Seq<File>, n: int)
    requires
        0 <= n <= items.len(),
        n <= fs.len(),
        forall|k: int|
            0 <= k < n ==> spec_file_at(#[trigger] items[k], key, k) == Ok::<
                File,
                Seq<BuildErrorV>,
            >(fs[k]),
    ensures
        spec_files_prefix(items, key, n) == Ok::<Seq<File>, Seq<BuildErrorV>>(fs.take(n)),
    decreases n,
{
    if n <= 0 {
        assert(fs.take(0) =~= Seq::<File>::empty());
    } else {
        lemma_files_prefix_of_items(items, key, fs, n - 1);
        assert(fs.take(n) =~= fs.take(n - 1).push(fs[n - 1]));
    }
}

/// The document of validated build intent: the same document the build
/// compiler accepts, extracting back exactly these instructions.
pub fn document_of(b: &BuildInstructions) -> (d: Document)
    requires
        b.wf(),
    ensures
        spec_path_field(d.entries@, "dir"@) == Ok::<String, BuildErrorV>(b.dir),
        spec_string_field(d.entries@, "family"@) == Ok::<String, BuildErrorV>(b.family),
        spec_string_field(d.entries@, "descr"@) == Ok::<String, BuildErrorV>(b.tag),
        spec_string_field(d.entries@, "hooks"@) == Ok::<String, BuildErrorV>(b.hooks),
        spec_bindings(d.entries@, "env_var_dirs"@) == Ok::<Seq<EnvDir>, Seq<BuildErrorV>>(
            b.sub_dirs@,
        ),
        spec_files(d.entries@, "files"@) == Ok::<Seq<File>, Seq<BuildErrorV>>(b.files@),
{
    let mut dir_items: Vec<DocValue> = Vec::new();
    let nd = b.sub_dirs.len();
    for j in 0..nd
        invariant
            nd == b.sub_dirs@.len(),
            dir_items@.len() == j,
            forall|k: int|
                0 <= k < j ==> spec_binding_at(#[trigger] dir_items@[k], "env_var_dirs"@, k)
                    == Ok::<EnvDir, Seq<BuildErrorV>>(b.sub_dirs@[k]),
            forall|k: int| 0 <= k < b.sub_dirs@.len() ==> (#[trigger] b.sub_dirs@[k].path@).len()
                > 0,
    {
        let item = record_node("name", &b.sub_dirs[j].name, "path", &b.sub_dirs[j].path);
        proof {
            reveal_strlit("name");
            reveal_strlit("path");
            assert("name"@.len() == 4 && "path"@.len() == 4);
            assert("name"@[0] == 'n' && "path"@[0] == 'p');
            assert("name"@ != "path"@);
            assert(item matches DocValue::Table(fields) && spec_lookup(fields@, "name"@)
                == Some(DocValue::Str(b.sub_dirs@[j as int].name)));
            assert(item matches DocValue::Table(fields) && spec_lookup(fields@, "path"@)
                == Some(DocValue::Str(b.sub_dirs@[j as int].path)));
            assert(b.sub_dirs@[j as int].path@.len() > 0);
            assert(spec_binding_at(item, "env_var_dirs"@, j as int) == Ok::<
                EnvDir,
                Seq<BuildErrorV>,
            >(EnvDir { name: b.sub_dirs@[j as int].name, path: b.sub_dirs@[j as int].path }));
            assert(EnvDir { name: b.sub_dirs@[j as int].name, path: b.sub_dirs@[j as int].path }
                == b.sub_dirs@[j as int]);
        }
        dir_items.push(item);
    }
    let mut file_items: Vec<DocValue> = Vec::new();
    let nf = b.files.len();
    for j in 0..nf
        invariant
            nf == b.files@.len(),
            file_items@.len() == j,
            forall|k: int|
                0 <= k < j ==> spec_file_at(#[trigger] file_items@[k], "files"@, k) == Ok::<
                    File,
                    Seq<BuildErrorV>,
                >(b.files@[k]),
            forall|k: int| 0 <= k < b.files@.len() ==> (#[trigger] b.files@[k].path@).len() > 0,
    {
        let item = record_node("path", &b.files[j].path, "content", &b.files[j].content);
        proof {
            reveal_strlit("path");
            reveal_strlit("content");
            assert("path"@.len() == 4 && "content"@.len() == 7);
            assert("path"@ != "content"@);
            assert(item matches DocValue::Table(fields) && spec_lookup(fields@, "path"@)
                == Some(DocValue::Str(b.files@[j as int].path)));
            assert(item matches DocValue::Table(fields) && spec_lookup(fields@, "content"@)
                == Some(DocValue::Str(b.files@[j as int].content)));
            assert(b.files@[j as int].path@.len() > 0);
            assert(spec_file_at(item, "files"@, j as int) == Ok::<File, Seq<BuildErrorV>>(
                File { path: b.files@[j as int].path, content: b.files@[j as int].content },
            ));
            assert(File { path: b.files@[j as int].path, content: b.files@[j as int].content }
                == b.files@[j as int]);
        }
        file_items.push(item);
    }
    let mut entries: Vec<DocEntry> = Vec::new();
    entries.push(DocEntry { key: "dir".to_owned(), value: DocValue::Str(b.dir.clone()) });
    entries.push(DocEntry { key: "family".to_owned(), value: DocValue::Str(b.family.clone()) });
    entries.push(DocEntry { key: "descr".to_owned(), value: DocValue::Str(b.tag.clone()) });
    entries.push(DocEntry { key: "hooks".to_owned(), value: DocValue::Str(b.hooks.clone()) });
    entries.push(DocEntry { key: "env_var_dirs".to_owned(), value: DocValue::List(dir_items) });
    entries.push(DocEntry { key: "files".to_owned(), value: DocValue::List(file_items) });
    let d = Document { entries };
    proof {
        reveal_strlit("dir");
        reveal_strlit("family");
        reveal_strlit("descr");
        reveal_strlit("hooks");
        reveal_strlit("env_var_dirs");
        reveal_strlit("files");
        let es = d.entries@;
        let t1 = es.drop_first();
        let t2 = t1.drop_first();
        let t3 = t2.drop_first();
        let t4 = t3.drop_first();
        let t5 = t4.drop_first();
        assert(es.len() == 6);
        assert("dir"@.len() == 3 && "family"@.len() == 6 && "descr"@.len() == 5);
        assert("hooks"@.len() == 5 && "env_var_dirs"@.len() == 12 && "files"@.len() == 5);
        assert("descr"@[0] == 'd' && "hooks"@[0] == 'h' && "files"@[0] == 'f');
        assert("dir"@ != "family"@ && "dir"@ != "descr"@ && "dir"@ != "hooks"@ && "dir"@
            != "env_var_dirs"@ && "dir"@ != "files"@);
        assert("family"@ != "descr"@ && "family"@ != "hooks"@ && "family"@ != "env_var_dirs"@
            && "family"@ != "files"@);
        assert("descr"@ != "hooks"@ && "descr"@ != "env_var_dirs"@ && "descr"@ != "files"@);
        assert("hooks"@ != "env_var_dirs"@ && "hooks"@ != "files"@);
        assert("env_var_dirs"@ != "files"@);
        assert(t1 =~= es.subrange(1, 6));
        assert(t2 =~= es.subrange(2, 6));
        assert(t3 =~= es.subrange(3, 6));
        assert(t4 =~= es.subrange(4, 6));
        assert(t5 =~= es.subrange(5, 6));
        assert(spec_lookup(es, "dir"@) == Some(es[0].value));
        assert(spec_lookup(es, "family"@) == spec_lookup(t1, "family"@));
        assert(spec_lookup(t1, "family"@) == Some(es[1].value));
        assert(spec_lookup(es, "descr"@) == spec_lookup(t1, "descr"@));
        assert(spec_lookup(t1, "descr"@) == spec_lookup(t2, "descr"@));
        assert(spec_lookup(t2, "descr"@) == Some(es[2].value));
        assert(spec_lookup(es, "hooks"@) == spec_lookup(t1, "hooks"@));
        assert(spec_lookup(t1, "hooks"@) == spec_lookup(t2, "hooks"@));
        assert(spec_lookup(t2, "hooks"@) == spec_lookup(t3, "hooks"@));
        assert(spec_lookup(t3, "hooks"@) == Some(es[3].value));
        assert(spec_lookup(es, "env_var_dirs"@) == spec_lookup(t1, "env_var_dirs"@));
        assert(spec_lookup(t1, "env_var_dirs"@) == spec_lookup(t2, "env_var_dirs"@));
        assert(spec_lookup(t2, "env_var_dirs"@) == spec_lookup(t3, "env_var_dirs"@));
        assert(spec_lookup(t3, "env_var_dirs"@) == spec_lookup(t4, "env_var_dirs"@));
        assert(spec_lookup(t4, "env_var_dirs"@) == Some(es[4].value));
        assert(spec_lookup(es, "files"@) == spec_lookup(t1, "files"@));
        assert(spec_lookup(t1, "files"@) == spec_lookup(t2, "files"@));
        assert(spec_lookup(t2, "files"@) == spec_lookup(t3, "files"@));
        assert(spec_lookup(t3, "files"@) == spec_lookup(t4, "files"@));
        assert(spec_lookup(t4, "files"@) == spec_lookup(t5, "files"@));
        assert(spec_lookup(t5, "files"@) == Some(es[5].value));
        assert(b.dir@.len() > 0);
        if let DocValue::List(di) = es[4].value {
            lemma_bindings_prefix_of_items(di@, "env_var_dirs"@, b.sub_dirs@, di@.len() as int);
            assert(b.sub_dirs@.take(b.sub_dirs@.len() as int) =~= b.sub_dirs@);
        }
        if let DocValue::List(fi) = es[5].value {
            lemma_files_prefix_of_items(fi@, "files"@, b.files@, fi@.len() as int);
            assert(b.files@.take(b.files@.len() as int) =~= b.files@);
        }
    }
    d
}

/// Law (document round trip): a document that extracts exactly to
/// well-formed instructions carries no diagnostic at all, so the compiler
/// accepts it and, by the compiler's own contract, gives those instructions
/// back, field for field.
pub proof fn lemma_document_of_compiles(entries: Seq<DocEntry>, b: BuildInstructions)
    requires
        b.wf(),
        spec_path_field(entries, "dir"@) == Ok::<String, BuildErrorV>(b.dir),
        spec_string_field(entries, "family"@) == Ok::<String, BuildErrorV>(b.family),
        spec_string_field(entries, "descr"@) == Ok::<String, BuildErrorV>(b.tag),
        spec_string_field(entries, "hooks"@) == Ok::<String, BuildErrorV>(b.hooks),
        spec_bindings(entries, "env_var_dirs"@) == Ok::<Seq<EnvDir>, Seq<BuildErrorV>>(
            b.sub_dirs@,
        ),
        spec_files(entries, "files"@) == Ok::<Seq<File>, Seq<BuildErrorV>>(b.files@),
    ensures
        spec_doc_errors(entries).len() == 0,
{
    lemma_name_errors_of_wf(b.sub_dirs@, b.sub_dirs@.len() as int);
    lemma_dup_binding_errors_of_wf(b.sub_dirs@, b.sub_dirs@.len() as int);
    lemma_dup_file_errors_of_wf(b.files@, b.files@.len() as int);
}

/// The persistable document of an install plan: the plan's bindings and
/// files with the scalar fields, carrying no diagnostic, so that compiling
/// it back and lowering again rebuilds this very plan.
pub fn install_document(i: &InstallInstructions) -> (d: Document)
    requires
        i.wf(),
    ensures
        spec_path_field(d.entries@, "dir"@) == Ok::<String, BuildErrorV>(i.dir),
        spec_string_field(d.entries@, "family"@) == Ok::<String, BuildErrorV>(i.family),
        spec_string_field(d.entries@, "descr"@) == Ok::<String, BuildErrorV>(i.tag),
        spec_string_field(d.entries@, "hooks"@) == Ok::<String, BuildErrorV>(i.hooks),
        spec_bindings(d.entries@, "env_var_dirs"@) == Ok::<Seq<EnvDir>, Seq<BuildErrorV>>(
            spec_bindings_of_plan(i.actions@),
        ),
        spec_files(d.entries@, "files"@) == Ok::<Seq<File>, Seq<BuildErrorV>>(
            spec_files_of_plan(i.actions@),
        ),
        spec_doc_errors(d.entries@).len() == 0,
{
    let sub_dirs = bindings_of_plan(i);
    let files = files_of_plan(i);
    let b = BuildInstructions {
        dir: i.dir.clone(),
        family: i.family.clone(),
        tag: i.tag.clone(),
        hooks: i.hooks.clone(),
        sub_dirs,
        files,
    };
    let d = document_of(&b);
    proof {
        lemma_document_of_compiles(d.entries@, b);
    }
    d
}

/// Serialize an install plan to TOML text: the rendered text is the
/// serializer's image of a diagnostic-free document carrying exactly the
/// plan's bindings and files. `None` only where the serializer refuses that
/// very document.
pub fn render_install(i: &InstallInstructions) -> (r: Option<String>)
    requires
        i.wf(),
    ensures
        (r matches Some(s) ==> exists|d: Document|
            {
                &&& #[trigger] toml_text_of(d) == Some(s@)
                &&& spec_bindings(d.entries@, "env_var_dirs"@) == Ok::<
                    Seq<EnvDir>,
                    Seq<BuildErrorV>,
                >(spec_bindings_of_plan(i.actions@))
                &&& spec_files(d.entries@, "files"@) == Ok::<Seq<File>, Seq<BuildErrorV>>(
                    spec_files_of_plan(i.actions@),
                )
                &&& spec_doc_errors(d.entries@).len() == 0
            }),
        (r is None ==> exists|d: Document|
            {
                &&& (#[trigger] toml_text_of(d)) is None
                &&& spec_bindings(d.entries@, "env_var_dirs"@) == Ok::<
                    Seq<EnvDir>,
                    Seq<BuildErrorV>,
                >(spec_bindings_of_plan(i.actions@))
                &&& spec_files(d.entries@, "files"@) == Ok::<Seq<File>, Seq<BuildErrorV>>(
                    spec_files_of_plan(i.actions@),
                )
                &&& spec_doc_errors(d.entries@).len() == 0
            }),
{
    let d = install_document(i);
    let r = render_document(&d);
    proof {
        if r is Some {
            assert(toml_text_of(d) == Some(r->0@));
        } else {
            assert(toml_text_of(d) is None);
        }
    }
    r
}

} // verus!
