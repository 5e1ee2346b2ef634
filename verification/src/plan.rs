//! The install plan: an ordered list of provisioning actions, the hook text,
//! and a teardown list that is the exact structural inverse of the
//! directory-creating provisioning actions, in reverse order.

use vstd::prelude::*;

use crate::compile::{BuildInstructions, EnvDir, File, spec_supported_family, wf_bindings, wf_files};

verus! {

/// One provisioning action, executed in declaration order.
#[derive(Debug, PartialEq, Eq)]
pub enum ProvisionAction {
    /// Ensure the directory at `path` exists (creating parents as needed) and
    /// bind the environment variable `name` to its absolute form.
    EnsureDir { name: String, path: String },
    /// Write `content` to `path`; a file that already exists with the same
    /// content is left alone, one with different content is a failure.
    /// Generated files are intentionally persistent: no teardown action.
    WriteFile { path: String, content: String },
}

/// One teardown action, executed in reverse provisioning order.
#[derive(Debug, PartialEq, Eq)]
pub enum TeardownAction {
    /// Unbind the environment variable `name`; remove the directory at `path`
    /// if and only if its provisioning action created it.
    RemoveDir { name: String, path: String },
}

/// The executable provisioning plan of the install phase.
#[derive(Debug, PartialEq, Eq)]
pub struct InstallInstructions {
    /// Root directory of the environment; the shell starts here.
    pub dir: String,
    /// Target shell family.
    pub family: String,
    /// Identifier of this environment instance.
    pub tag: String,
    /// Setup command text run before the shell is spawned.
    pub hooks: String,
    /// Provisioning actions, in execution order.
    pub actions: Vec<ProvisionAction>,
    /// Teardown actions: the inverse of the directory-creating provisioning
    /// actions, in reverse order.
    pub teardown: Vec<TeardownAction>,
}

impl ProvisionAction {
    /// A copy with the same fields.
    pub fn duplicate(&self) -> (r: ProvisionAction)
        ensures
            r == *self,
    {
        match self {
            ProvisionAction::EnsureDir { name, path } => ProvisionAction::EnsureDir {
                name: name.clone(),
                path: path.clone(),
            },
            ProvisionAction::WriteFile { path, content } => ProvisionAction::WriteFile {
                path: path.clone(),
                content: content.clone(),
            },
        }
    }
}

impl TeardownAction {
    /// A copy with the same fields.
    pub fn duplicate(&self) -> (r: TeardownAction)
        ensures
            r == *self,
    {
        match self {
            TeardownAction::RemoveDir { name, path } => TeardownAction::RemoveDir {
                name: name.clone(),
                path: path.clone(),
            },
        }
    }
}

/// The provisioning actions of the environment bindings, in order.
pub open spec fn dir_actions_of(ds: Seq<EnvDir>) -> Seq<ProvisionAction> {
    ds.map_values(|d: EnvDir| ProvisionAction::EnsureDir { name: d.name, path: d.path })
}

/// The provisioning actions of the generated files, in order.
pub open spec fn file_actions_of(fs: Seq<File>) -> Seq<ProvisionAction> {
    fs.map_values(|f: File| ProvisionAction::WriteFile { path: f.path, content: f.content })
}

/// The teardown action of each environment binding, in binding order.
pub open spec fn dir_removals(ds: Seq<EnvDir>) -> Seq<TeardownAction> {
    ds.map_values(|d: EnvDir| TeardownAction::RemoveDir { name: d.name, path: d.path })
}

/// The teardown actions owed to a provisioning list, in provisioning order:
/// one per directory-creating action, none for a file.
pub open spec fn dir_teardowns(actions: Seq<ProvisionAction>) -> Seq<TeardownAction>
    decreases actions.len(),
{
    if actions.len() == 0 {
        Seq::empty()
    } else {
        let rest = dir_teardowns(actions.drop_first());
        match actions[0] {
            ProvisionAction::EnsureDir { name, path } => seq![
                TeardownAction::RemoveDir { name, path },
            ] + rest,
            ProvisionAction::WriteFile { .. } => rest,
        }
    }
}

/// The environment bindings a provisioning list carries, in order.
pub open spec fn spec_bindings_of_plan(actions: Seq<ProvisionAction>) -> Seq<EnvDir>
    decreases actions.len(),
{
    if actions.len() == 0 {
        Seq::empty()
    } else {
        let rest = spec_bindings_of_plan(actions.drop_first());
        match actions[0] {
            ProvisionAction::EnsureDir { name, path } => seq![EnvDir { name, path }] + rest,
            ProvisionAction::WriteFile { .. } => rest,
        }
    }
}

/// The generated files a provisioning list carries, in order.
pub open spec fn spec_files_of_plan(actions: Seq<ProvisionAction>) -> Seq<File>
    decreases actions.len(),
{
    if actions.len() == 0 {
        Seq::empty()
    } else {
        let rest = spec_files_of_plan(actions.drop_first());
        match actions[0] {
            ProvisionAction::EnsureDir { .. } => rest,
            ProvisionAction::WriteFile { path, content } => seq![File { path, content }] + rest,
        }
    }
}

proof fn lemma_dir_teardowns_add(a: Seq<ProvisionAction>, b: Seq<ProvisionAction>)
    ensures
        dir_teardowns(a + b) == dir_teardowns(a) + dir_teardowns(b),
    decreases a.len(),
{
    if a.len() == 0 {
        assert(a + b =~= b);
        assert(dir_teardowns(a) + dir_teardowns(b) =~= dir_teardowns(b));
    } else {
        assert((a + b).drop_first() =~= a.drop_first() + b);
        lemma_dir_teardowns_add(a.drop_first(), b);
        assert((a + b)[0] == a[0]);
        match a[0] {
            ProvisionAction::EnsureDir { name, path } => {
                assert(seq![TeardownAction::RemoveDir { name, path }] + (dir_teardowns(
                    a.drop_first(),
                ) + dir_teardowns(b)) =~= (seq![TeardownAction::RemoveDir { name, path }]
                    + dir_teardowns(a.drop_first())) + dir_teardowns(b));
            },
            ProvisionAction::WriteFile { .. } => {},
        }
    }
}

proof fn lemma_bindings_of_plan_add(a: Seq<ProvisionAction>, b: Seq<ProvisionAction>)
    ensures
        spec_bindings_of_plan(a + b) == spec_bindings_of_plan(a) + spec_bindings_of_plan(b),
    decreases a.len(),
{
    if a.len() == 0 {
        assert(a + b =~= b);
        assert(spec_bindings_of_plan(a) + spec_bindings_of_plan(b) =~= spec_bindings_of_plan(b));
    } else {
        assert((a + b).drop_first() =~= a.drop_first() + b);
        lemma_bindings_of_plan_add(a.drop_first(), b);
        assert((a + b)[0] == a[0]);
        match a[0] {
            ProvisionAction::EnsureDir { name, path } => {
                assert(seq![EnvDir { name, path }] + (spec_bindings_of_plan(a.drop_first())
                    + spec_bindings_of_plan(b)) =~= (seq![EnvDir { name, path }]
                    + spec_bindings_of_plan(a.drop_first())) + spec_bindings_of_plan(b));
            },
            ProvisionAction::WriteFile { .. } => {},
        }
    }
}

proof fn lemma_files_of_plan_add(a: Seq<ProvisionAction>, b: Seq<ProvisionAction>)
    ensures
        spec_files_of_plan(a + b) == spec_files_of_plan(a) + spec_files_of_plan(b),
    decreases a.len(),
{
    if a.len() == 0 {
        assert(a + b =~= b);
        assert(spec_files_of_plan(a) + spec_files_of_plan(b) =~= spec_files_of_plan(b));
    } else {
        assert((a + b).drop_first() =~= a.drop_first() + b);
        lemma_files_of_plan_add(a.drop_first(), b);
        assert((a + b)[0] == a[0]);
        match a[0] {
            ProvisionAction::EnsureDir { .. } => {},
            ProvisionAction::WriteFile { path, content } => {
                assert(seq![File { path, content }] + (spec_files_of_plan(a.drop_first())
                    + spec_files_of_plan(b)) =~= (seq![File { path, content }]
                    + spec_files_of_plan(a.drop_first())) + spec_files_of_plan(b));
            },
        }
    }
}

proof fn lemma_plan_of_dirs(ds: Seq<EnvDir>)
    ensures
        spec_bindings_of_plan(dir_actions_of(ds)) == ds,
        spec_files_of_plan(dir_actions_of(ds)) == Seq::<File>::empty(),
        dir_teardowns(dir_actions_of(ds)) == dir_removals(ds),
    decreases ds.len(),
{
    if ds.len() == 0 {
        assert(dir_actions_of(ds) =~= Seq::<ProvisionAction>::empty());
        assert(spec_bindings_of_plan(dir_actions_of(ds)) =~= Seq::<EnvDir>::empty());
        assert(dir_removals(ds) =~= Seq::<TeardownAction>::empty());
    } else {
        lemma_plan_of_dirs(ds.drop_first());
        assert(dir_actions_of(ds).drop_first() =~= dir_actions_of(ds.drop_first()));
        assert(seq![EnvDir { name: ds[0].name, path: ds[0].path }] + ds.drop_first() =~= ds);
        assert(seq![TeardownAction::RemoveDir { name: ds[0].name, path: ds[0].path }]
            + dir_removals(ds.drop_first()) =~= dir_removals(ds));
    }
}

proof fn lemma_plan_of_files(fs: Seq<File>)
    ensures
        spec_bindings_of_plan(file_actions_of(fs)) == Seq::<EnvDir>::empty(),
        spec_files_of_plan(file_actions_of(fs)) == fs,
        dir_teardowns(file_actions_of(fs)) == Seq::<TeardownAction>::empty(),
    decreases fs.len(),
{
    if fs.len() == 0 {
        assert(file_actions_of(fs) =~= Seq::<ProvisionAction>::empty());
        assert(spec_files_of_plan(file_actions_of(fs)) =~= Seq::<File>::empty());
    } else {
        lemma_plan_of_files(fs.drop_first());
        assert(file_actions_of(fs).drop_first() =~= file_actions_of(fs.drop_first()));
        assert(seq![File { path: fs[0].path, content: fs[0].content }] + fs.drop_first() =~= fs);
    }
}

/// Law (round trip): a plan lowered from bindings `ds` and files `fs` gives
/// back exactly `ds` and `fs`, in order, and owes exactly one teardown per
/// binding.
pub proof fn lemma_round_trip(ds: Seq<EnvDir>, fs: Seq<File>)
    ensures
        spec_bindings_of_plan(dir_actions_of(ds) + file_actions_of(fs)) == ds,
        spec_files_of_plan(dir_actions_of(ds) + file_actions_of(fs)) == fs,
        dir_teardowns(dir_actions_of(ds) + file_actions_of(fs)) == dir_removals(ds),
{
    lemma_bindings_of_plan_add(dir_actions_of(ds), file_actions_of(fs));
    lemma_files_of_plan_add(dir_actions_of(ds), file_actions_of(fs));
    lemma_dir_teardowns_add(dir_actions_of(ds), file_actions_of(fs));
    lemma_plan_of_dirs(ds);
    lemma_plan_of_files(fs);
    assert(ds + Seq::<EnvDir>::empty() =~= ds);
    assert(Seq::<File>::empty() + fs =~= fs);
    assert(dir_removals(ds) + Seq::<TeardownAction>::empty() =~= dir_removals(ds));
}

/// One more processed action extends the carried bindings by that action's
/// binding, if it has one.
pub proof fn lemma_bindings_snoc(actions: Seq<ProvisionAction>, j: int)
    requires
        0 <= j < actions.len(),
    ensures
        spec_bindings_of_plan(actions.take(j + 1)) == spec_bindings_of_plan(actions.take(j))
            + (match actions[j] {
            ProvisionAction::EnsureDir { name, path } => seq![EnvDir { name, path }],
            ProvisionAction::WriteFile { .. } => Seq::<EnvDir>::empty(),
        }),
{
    assert(actions.take(j + 1) =~= actions.take(j) + seq![actions[j]]);
    lemma_bindings_of_plan_add(actions.take(j), seq![actions[j]]);
    assert(seq![actions[j]].drop_first() =~= Seq::<ProvisionAction>::empty());
    assert(spec_bindings_of_plan(Seq::<ProvisionAction>::empty()) == Seq::<EnvDir>::empty());
    match actions[j] {
        ProvisionAction::EnsureDir { name, path } => {
            assert(spec_bindings_of_plan(seq![actions[j]]) =~= seq![EnvDir { name, path }]);
        },
        ProvisionAction::WriteFile { .. } => {
            assert(spec_bindings_of_plan(seq![actions[j]]) =~= Seq::<EnvDir>::empty());
        },
    }
}

impl InstallInstructions {
    /// A well-formed plan: non-empty root, supported family, well-formed
    /// unique bindings, and a teardown list that is the exact inverse of the
    /// directory-creating actions, in reverse order.
    pub open spec fn wf(&self) -> bool {
        &&& self.dir@.len() > 0
        &&& spec_supported_family(self.family@)
        &&& wf_bindings(spec_bindings_of_plan(self.actions@))
        &&& wf_files(spec_files_of_plan(self.actions@))
        &&& self.teardown@ == dir_teardowns(self.actions@).reverse()
    }
}

/// Lower validated build instructions into the install plan: one
/// directory-creating action per binding, then one file action per generated
/// file; hooks carried through unchanged; teardown in exact reverse order of
/// the directory-creating actions.
pub fn lower(b: BuildInstructions) -> (r: InstallInstructions)
    ensures
        r.dir == b.dir,
        r.family == b.family,
        r.tag == b.tag,
        r.hooks == b.hooks,
        r.actions@ == dir_actions_of(b.sub_dirs@) + file_actions_of(b.files@),
        r.teardown@ == dir_teardowns(r.actions@).reverse(),
        b.wf() ==> r.wf(),
{
    let mut actions: Vec<ProvisionAction> = Vec::new();
    let nd = b.sub_dirs.len();
    for j in 0..nd
        invariant
            nd == b.sub_dirs@.len(),
            actions@ =~= dir_actions_of(b.sub_dirs@.take(j as int)),
    {
        actions.push(
            ProvisionAction::EnsureDir {
                name: b.sub_dirs[j].name.clone(),
                path: b.sub_dirs[j].path.clone(),
            },
        );
        proof {
            assert(b.sub_dirs@.take(j + 1) =~= b.sub_dirs@.take(j as int).push(
                b.sub_dirs@[j as int],
            ));
            assert(actions@ =~= dir_actions_of(b.sub_dirs@.take(j + 1)));
        }
    }
    proof {
        assert(b.sub_dirs@.take(nd as int) =~= b.sub_dirs@);
    }
    let nf = b.files.len();
    for j in 0..nf
        invariant
            nd == b.sub_dirs@.len(),
            nf == b.files@.len(),
            actions@ =~= dir_actions_of(b.sub_dirs@) + file_actions_of(b.files@.take(j as int)),
    {
        actions.push(
            ProvisionAction::WriteFile {
                path: b.files[j].path.clone(),
                content: b.files[j].content.clone(),
            },
        );
        proof {
            assert(b.files@.take(j + 1) =~= b.files@.take(j as int).push(b.files@[j as int]));
            assert(actions@ =~= dir_actions_of(b.sub_dirs@) + file_actions_of(
                b.files@.take(j + 1),
            ));
        }
    }
    proof {
        assert(b.files@.take(nf as int) =~= b.files@);
    }
    let mut teardown: Vec<TeardownAction> = Vec::new();
    for k in 0..nd
        invariant
            nd == b.sub_dirs@.len(),
            teardown@ =~= dir_removals(b.sub_dirs@).reverse().take(k as int),
    {
        let j = nd - 1 - k;
        teardown.push(
            TeardownAction::RemoveDir {
                name: b.sub_dirs[j].name.clone(),
                path: b.sub_dirs[j].path.clone(),
            },
        );
        proof {
            assert(dir_removals(b.sub_dirs@).reverse()[k as int] == dir_removals(b.sub_dirs@)[nd
                - 1 - k]);
            assert(teardown@ =~= dir_removals(b.sub_dirs@).reverse().take(k + 1));
        }
    }
    proof {
        assert(dir_removals(b.sub_dirs@).reverse().take(nd as int) =~= dir_removals(
            b.sub_dirs@,
        ).reverse());
        lemma_round_trip(b.sub_dirs@, b.files@);
    }
    let BuildInstructions { dir, family, tag, hooks, sub_dirs: _, files: _ } = b;
    InstallInstructions { dir, family, tag, hooks, actions, teardown }
}

/// The environment bindings carried by a plan, in order: the reverse
/// direction of the lowering, for reading a plan back.
pub fn bindings_of_plan(i: &InstallInstructions) -> (r: Vec<EnvDir>)
    ensures
        r@ == spec_bindings_of_plan(i.actions@),
{
    let mut out: Vec<EnvDir> = Vec::new();
    let n = i.actions.len();
    for j in 0..n
        invariant
            n == i.actions@.len(),
            out@ =~= spec_bindings_of_plan(i.actions@.take(j as int)),
    {
        match &i.actions[j] {
            ProvisionAction::EnsureDir { name, path } => {
                out.push(EnvDir { name: name.clone(), path: path.clone() });
            },
            ProvisionAction::WriteFile { .. } => {},
        }
        proof {
            assert(i.actions@.take(j + 1) =~= i.actions@.take(j as int).push(
                i.actions@[j as int],
            ));
            lemma_bindings_of_plan_add(
                i.actions@.take(j as int),
                seq![i.actions@[j as int]],
            );
            assert(i.actions@.take(j as int).push(i.actions@[j as int]) =~= i.actions@.take(
                j as int,
            ) + seq![i.actions@[j as int]]);
            let a = i.actions@[j as int];
            assert(seq![a].drop_first() =~= Seq::<ProvisionAction>::empty());
            assert(spec_bindings_of_plan(Seq::<ProvisionAction>::empty())
                == Seq::<EnvDir>::empty());
            match a {
                ProvisionAction::EnsureDir { name, path } => {
                    assert(spec_bindings_of_plan(seq![a]) =~= seq![EnvDir { name, path }]);
                },
                ProvisionAction::WriteFile { .. } => {
                    assert(spec_bindings_of_plan(seq![a]) =~= Seq::<EnvDir>::empty());
                },
            }
            assert(out@ =~= spec_bindings_of_plan(i.actions@.take(j + 1)));
        }
    }
    proof {
        assert(i.actions@.take(n as int) =~= i.actions@);
    }
    out
}

/// The generated files carried by a plan, in order.
pub fn files_of_plan(i: &InstallInstructions) -> (r: Vec<File>)
    ensures
        r@ == spec_files_of_plan(i.actions@),
{
    let mut out: Vec<File> = Vec::new();
    let n = i.actions.len();
    for j in 0..n
        invariant
            n == i.actions@.len(),
            out@ =~= spec_files_of_plan(i.actions@.take(j as int)),
    {
        match &i.actions[j] {
            ProvisionAction::EnsureDir { .. } => {},
            ProvisionAction::WriteFile { path, content } => {
                out.push(File { path: path.clone(), content: content.clone() });
            },
        }
        proof {
            assert(i.actions@.take(j + 1) =~= i.actions@.take(j as int).push(
                i.actions@[j as int],
            ));
            lemma_files_of_plan_add(
                i.actions@.take(j as int),
                seq![i.actions@[j as int]],
            );
            assert(i.actions@.take(j as int).push(i.actions@[j as int]) =~= i.actions@.take(
                j as int,
            ) + seq![i.actions@[j as int]]);
            let a = i.actions@[j as int];
            assert(seq![a].drop_first() =~= Seq::<ProvisionAction>::empty());
            assert(spec_files_of_plan(Seq::<ProvisionAction>::empty()) == Seq::<File>::empty());
            match a {
                ProvisionAction::EnsureDir { .. } => {
                    assert(spec_files_of_plan(seq![a]) =~= Seq::<File>::empty());
                },
                ProvisionAction::WriteFile { path, content } => {
                    assert(spec_files_of_plan(seq![a]) =~= seq![File { path, content }]);
                },
            }
            assert(out@ =~= spec_files_of_plan(i.actions@.take(j + 1)));
        }
    }
    proof {
        assert(i.actions@.take(n as int) =~= i.actions@);
    }
    out
}

/// Law (teardown symmetry): in a well-formed plan there is exactly one
/// teardown action per directory-creating provisioning action, and teardown
/// runs in exact reverse provisioning order: the action at position `k` of
/// the teardown list releases the binding provisioned `k`-th from the end.
pub proof fn lemma_teardown_symmetry(i: InstallInstructions)
    requires
        i.wf(),
    ensures
        i.teardown@.len() == spec_bindings_of_plan(i.actions@).len(),
        forall|k: int|
            0 <= k < i.teardown@.len() ==> {
                let ds = spec_bindings_of_plan(i.actions@);
                #[trigger] i.teardown@[k] == TeardownAction::RemoveDir {
                    name: ds[ds.len() - 1 - k].name,
                    path: ds[ds.len() - 1 - k].path,
                }
            },
{
    lemma_teardowns_are_removals(i.actions@);
    let ds = spec_bindings_of_plan(i.actions@);
    assert forall|k: int| 0 <= k < i.teardown@.len() implies #[trigger] i.teardown@[k]
        == TeardownAction::RemoveDir {
        name: ds[ds.len() - 1 - k].name,
        path: ds[ds.len() - 1 - k].path,
    } by {
        assert(i.teardown@[k] == dir_teardowns(i.actions@).reverse()[k]);
        assert(dir_teardowns(i.actions@).reverse()[k] == dir_teardowns(i.actions@)[ds.len() - 1
            - k]);
        assert(dir_removals(ds)[ds.len() - 1 - k] == TeardownAction::RemoveDir {
            name: ds[ds.len() - 1 - k].name,
            path: ds[ds.len() - 1 - k].path,
        });
    }
}

proof fn lemma_teardowns_are_removals(actions: Seq<ProvisionAction>)
    ensures
        dir_teardowns(actions) == dir_removals(spec_bindings_of_plan(actions)),
    decreases actions.len(),
{
    if actions.len() == 0 {
        assert(dir_teardowns(actions) =~= dir_removals(spec_bindings_of_plan(actions)));
    } else {
        lemma_teardowns_are_removals(actions.drop_first());
        match actions[0] {
            ProvisionAction::EnsureDir { name, path } => {
                assert(seq![EnvDir { name, path }] + spec_bindings_of_plan(actions.drop_first())
                    =~= spec_bindings_of_plan(actions.drop_first()).insert(
                    0,
                    EnvDir { name, path },
                ));
                assert(dir_teardowns(actions) =~= dir_removals(spec_bindings_of_plan(actions)));
            },
            ProvisionAction::WriteFile { .. } => {},
        }
    }
}

} // verus!
