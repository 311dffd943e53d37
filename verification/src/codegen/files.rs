//! Which files the generator writes, in which order.
//!
//! The plan is a function of the API description and the configuration
//! alone: the same input gives the same files, in the same order. Paths are
//! relative to the output directory and use `/`.

use vstd::prelude::*;
use vstd::string::*;
use crate::codegen::api::{builtin_names, class_names, BuiltinClass, Class, ExtensionApi};
use crate::codegen::names::{snake_case_of, to_snake_case};
use crate::codegen::selection::{class_bound, is_class_bound, GeneratorConfig, GeneratorConfigView};
use crate::text::{join_texts, str_eq, texts};
use crate::codegen::types::{is_builtin_scalar, is_builtin_scalar_spec};

verus! {

/// What a generated file holds.
#[derive(Copy, Clone, Debug, PartialEq, Eq, Structural)]
pub enum FileKind {
    /// The module file of the low-level bindings.
    SysModule,
    /// The central file of the low-level bindings: opaque types, the method
    /// table, the variant types and operators.
    SysCentral,
    /// The module file of the high-level bindings.
    CoreModule,
    /// The central file of the high-level bindings.
    CoreCentral,
    /// The global utility functions.
    Utilities,
    /// The class at this position of the description.
    Class { index: usize },
    /// The module file that lists the generated classes.
    ClassesModule,
    /// The builtin class at this position of the description.
    BuiltinClass { index: usize },
    /// The module file that lists the generated builtin classes.
    BuiltinClassesModule,
    /// The statistics of the run.
    Stats,
}

/// One file to write.
#[derive(Debug)]
pub struct GeneratedFile {
    pub path: String,
    pub kind: FileKind,
}

pub struct GeneratedFileView {
    pub path: Seq<char>,
    pub kind: FileKind,
}

impl View for GeneratedFile {
    type V = GeneratedFileView;

    open spec fn view(&self) -> GeneratedFileView {
        GeneratedFileView { path: self.path@, kind: self.kind }
    }
}

/// The views of a sequence of files, in order.
pub open spec fn file_views(files: Seq<GeneratedFile>) -> Seq<GeneratedFileView> {
    Seq::new(files.len(), |i: int| files[i]@)
}

/// The file of the module `name` in the directory `dir`.
pub open spec fn module_file_path(dir: Seq<char>, name: Seq<char>) -> Seq<char> {
    dir + "/"@ + snake_case_of(name) + ".rs"@
}

/// Whether no file is written for the builtin type `name`: `Nil` has no
/// values, and the scalars are Rust's own types.
pub open spec fn builtin_type_deleted(name: Seq<char>) -> bool {
    name == "Nil"@ || is_builtin_scalar_spec(name)
}

/// The files of the bound classes among `names`, in order.
pub open spec fn class_files(names: Seq<Seq<char>>, config: GeneratorConfigView) -> Seq<
    GeneratedFileView,
>
    decreases names.len(),
{
    if names.len() == 0 {
        Seq::empty()
    } else {
        let front = class_files(names.drop_last(), config);
        if class_bound(config, names.last()) {
            front.push(
                GeneratedFileView {
                    path: module_file_path("classes"@, names.last()),
                    kind: FileKind::Class { index: (names.len() - 1) as usize },
                },
            )
        } else {
            front
        }
    }
}

/// The files of the builtin classes among `names` that get one, in order.
pub open spec fn builtin_class_files(names: Seq<Seq<char>>) -> Seq<GeneratedFileView>
    decreases names.len(),
{
    if names.len() == 0 {
        Seq::empty()
    } else {
        let front = builtin_class_files(names.drop_last());
        if builtin_type_deleted(names.last()) {
            front
        } else {
            front.push(
                GeneratedFileView {
                    path: module_file_path("builtin_classes"@, names.last()),
                    kind: FileKind::BuiltinClass { index: (names.len() - 1) as usize },
                },
            )
        }
    }
}

/// The files of the low-level bindings.
pub open spec fn sys_files() -> Seq<GeneratedFileView> {
    seq![
        GeneratedFileView { path: "mod.rs"@, kind: FileKind::SysModule },
        GeneratedFileView { path: "central.rs"@, kind: FileKind::SysCentral },
        GeneratedFileView { path: "codegen-stats.txt"@, kind: FileKind::Stats },
    ]
}

/// The files of the high-level bindings: the module and central files, the
/// utilities, one file per bound class and their module file, one file per
/// builtin class and their module file, and the statistics.
pub open spec fn core_files(
    classes: Seq<Seq<char>>,
    builtins: Seq<Seq<char>>,
    config: GeneratorConfigView,
) -> Seq<GeneratedFileView> {
    seq![
        GeneratedFileView { path: "mod.rs"@, kind: FileKind::CoreModule },
        GeneratedFileView { path: "central.rs"@, kind: FileKind::CoreCentral },
        GeneratedFileView { path: "utilities.rs"@, kind: FileKind::Utilities },
    ] + class_files(classes, config).push(
        GeneratedFileView { path: "classes/mod.rs"@, kind: FileKind::ClassesModule },
    ) + builtin_class_files(builtins).push(
        GeneratedFileView { path: "builtin_classes/mod.rs"@, kind: FileKind::BuiltinClassesModule },
    ).push(GeneratedFileView { path: "codegen-stats.txt"@, kind: FileKind::Stats })
}

/// Whether what a file of this kind holds depends on the description and
/// the configuration alone. The statistics hold measured times, so they
/// differ from run to run; every other file does not.
pub open spec fn kind_deterministic(kind: FileKind) -> bool {
    kind != FileKind::Stats
}

/// Whether every file of `files` but the last depends on the input alone,
/// and the last holds the statistics.
pub open spec fn only_statistics_vary(files: Seq<GeneratedFileView>) -> bool {
    &&& files.len() > 0
    &&& files.last().kind == FileKind::Stats
    &&& forall|i: int| 0 <= i < files.len() - 1 ==> kind_deterministic((#[trigger] files[i]).kind)
}

/// The files of classes are files of classes.
pub proof fn lemma_class_files_kinds(names: Seq<Seq<char>>, config: GeneratorConfigView)
    ensures
        forall|i: int|
            0 <= i < class_files(names, config).len() ==> (#[trigger] class_files(
                names,
                config,
            )[i]).kind is Class,
    decreases names.len(),
{
    if names.len() > 0 {
        lemma_class_files_kinds(names.drop_last(), config);
    }
}

/// The files of builtin classes are files of builtin classes.
pub proof fn lemma_builtin_class_files_kinds(names: Seq<Seq<char>>)
    ensures
        forall|i: int|
            0 <= i < builtin_class_files(names).len() ==> (#[trigger] builtin_class_files(
                names,
            )[i]).kind is BuiltinClass,
    decreases names.len(),
{
    if names.len() > 0 {
        lemma_builtin_class_files_kinds(names.drop_last());
    }
}

/// In both plans the statistics come last and are the only file that
/// differs between two runs on the same input.
pub proof fn lemma_only_statistics_vary(
    classes: Seq<Seq<char>>,
    builtins: Seq<Seq<char>>,
    config: GeneratorConfigView,
)
    ensures
        only_statistics_vary(sys_files()),
        only_statistics_vary(core_files(classes, builtins, config)),
{
    lemma_class_files_kinds(classes, config);
    lemma_builtin_class_files_kinds(builtins);
    let head = seq![
        GeneratedFileView { path: "mod.rs"@, kind: FileKind::CoreModule },
        GeneratedFileView { path: "central.rs"@, kind: FileKind::CoreCentral },
        GeneratedFileView { path: "utilities.rs"@, kind: FileKind::Utilities },
    ];
    let cf = class_files(classes, config);
    let bf = builtin_class_files(builtins);
    let first = head + cf.push(
        GeneratedFileView { path: "classes/mod.rs"@, kind: FileKind::ClassesModule },
    );
    let second = bf.push(
        GeneratedFileView { path: "builtin_classes/mod.rs"@, kind: FileKind::BuiltinClassesModule },
    ).push(GeneratedFileView { path: "codegen-stats.txt"@, kind: FileKind::Stats });
    let all = core_files(classes, builtins, config);
    assert(all == first + second);
    assert forall|i: int| 0 <= i < all.len() - 1 implies kind_deterministic(
        (#[trigger] all[i]).kind,
    ) by {
        if i < first.len() {
            assert(all[i] == first[i]);
            if i < 3 {
                assert(first[i] == head[i]);
            } else if i < 3 + cf.len() {
                assert(first[i] == cf[i - 3]);
            }
        } else {
            let j = i - first.len();
            assert(all[i] == second[j]);
            if j < bf.len() {
                assert(second[j] == bf[j]);
            }
        }
    }
    assert(all.last() == second.last());
}

/// Whether what a file of this kind holds depends on the description and
/// the configuration alone.
pub fn is_deterministic(kind: FileKind) -> (yes: bool)
    ensures
        yes == kind_deterministic(kind),
{
    match kind {
        FileKind::Stats => false,
        _ => true,
    }
}

/// A file named by a fixed path.
pub fn fixed_file(path: &str, kind: FileKind) -> (file: GeneratedFile)
    ensures
        file@ == (GeneratedFileView { path: path@, kind }),
{
    GeneratedFile { path: String::from_str(path), kind }
}

/// The file of the module `name` in the directory `dir`.
pub fn module_file(dir: &str, name: &str, kind: FileKind) -> (file: GeneratedFile)
    ensures
        file@ == (GeneratedFileView { path: module_file_path(dir@, name@), kind }),
{
    let module = to_snake_case(name);
    let mut path = join_texts(dir, "/");
    path.append(module.as_str());
    path.append(".rs");
    GeneratedFile { path, kind }
}

/// Whether no file is written for the builtin type `name`.
pub fn is_builtin_type_deleted(name: &str) -> (deleted: bool)
    ensures
        deleted == builtin_type_deleted(name@),
{
    str_eq(name, "Nil") || is_builtin_scalar(name)
}

/// The files of the bound classes, in the order of the description, each
/// with the position of its class.
pub fn generate_class_files(classes: &Vec<Class>, config: &GeneratorConfig) -> (files: Vec<
    GeneratedFile,
>)
    ensures
        file_views(files@) == class_files(class_names(classes@), config@),
{
    let ghost names = class_names(classes@);
    let mut files: Vec<GeneratedFile> = Vec::new();
    let mut i: usize = 0;
    proof {
        assert(names.take(0) =~= Seq::<Seq<char>>::empty());
        assert(file_views(files@) =~= Seq::<GeneratedFileView>::empty());
    }
    while i < classes.len()
        invariant
            i <= classes.len(),
            names == class_names(classes@),
            file_views(files@) == class_files(names.take(i as int), config@),
        decreases classes.len() - i,
    {
        proof {
            assert(names.take(i + 1).drop_last() =~= names.take(i as int));
            assert(names.take(i + 1).last() == classes[i as int].name@);
        }
        if is_class_bound(classes[i].name.as_str(), config) {
            let ghost before = file_views(files@);
            let file = module_file("classes", classes[i].name.as_str(), FileKind::Class { index: i });
            files.push(file);
            proof {
                assert(file_views(files@) =~= before.push(file@));
            }
        }
        i = i + 1;
    }
    proof {
        assert(names.take(i as int) =~= names);
    }
    files
}

/// The files of the builtin classes that get one, in the order of the
/// description, each with the position of its class.
pub fn generate_builtin_class_files(classes: &Vec<BuiltinClass>) -> (files: Vec<GeneratedFile>)
    ensures
        file_views(files@) == builtin_class_files(builtin_names(classes@)),
{
    let ghost names = builtin_names(classes@);
    let mut files: Vec<GeneratedFile> = Vec::new();
    let mut i: usize = 0;
    proof {
        assert(names.take(0) =~= Seq::<Seq<char>>::empty());
        assert(file_views(files@) =~= Seq::<GeneratedFileView>::empty());
    }
    while i < classes.len()
        invariant
            i <= classes.len(),
            names == builtin_names(classes@),
            file_views(files@) == builtin_class_files(names.take(i as int)),
        decreases classes.len() - i,
    {
        proof {
            assert(names.take(i + 1).drop_last() =~= names.take(i as int));
            assert(names.take(i + 1).last() == classes[i as int].name@);
        }
        if !is_builtin_type_deleted(classes[i].name.as_str()) {
            let ghost before = file_views(files@);
            let file = module_file(
                "builtin_classes",
                classes[i].name.as_str(),
                FileKind::BuiltinClass { index: i },
            );
            files.push(file);
            proof {
                assert(file_views(files@) =~= before.push(file@));
            }
        }
        i = i + 1;
    }
    proof {
        assert(names.take(i as int) =~= names);
    }
    files
}

/// Appends `more` to `files`, in order.
pub fn append_files(files: &mut Vec<GeneratedFile>, more: Vec<GeneratedFile>)
    ensures
        file_views(final(files)@) == file_views(old(files)@) + file_views(more@),
{
    let ghost start = file_views(files@);
    let ghost added = file_views(more@);
    let mut more = more;
    files.append(&mut more);
    proof {
        assert(file_views(files@) =~= start + added);
    }
}

/// The files of the low-level bindings, in the order in which they are
/// written.
pub fn generate_sys_files() -> (files: Vec<GeneratedFile>)
    ensures
        file_views(files@) == sys_files(),
        only_statistics_vary(file_views(files@)),
{
    proof {
        lemma_only_statistics_vary(
            Seq::empty(),
            Seq::empty(),
            GeneratorConfigView { selected_classes: None, deleted_classes: Seq::empty() },
        );
    }
    let mut files: Vec<GeneratedFile> = Vec::new();
    files.push(fixed_file("mod.rs", FileKind::SysModule));
    files.push(fixed_file("central.rs", FileKind::SysCentral));
    files.push(fixed_file("codegen-stats.txt", FileKind::Stats));
    proof {
        assert(file_views(files@) =~= sys_files());
    }
    files
}

/// The files of the high-level bindings for `api` under `config`, in the
/// order in which they are written.
pub fn generate_core_files(api: &ExtensionApi, config: &GeneratorConfig) -> (files: Vec<
    GeneratedFile,
>)
    ensures
        file_views(files@) == core_files(
            class_names(api.classes@),
            builtin_names(api.builtin_classes@),
            config@,
        ),
        only_statistics_vary(file_views(files@)),
{
    proof {
        lemma_only_statistics_vary(
            class_names(api.classes@),
            builtin_names(api.builtin_classes@),
            config@,
        );
    }
    let ghost classes = class_files(class_names(api.classes@), config@);
    let ghost builtins = builtin_class_files(builtin_names(api.builtin_classes@));
    let ghost classes_module = GeneratedFileView {
        path: "classes/mod.rs"@,
        kind: FileKind::ClassesModule,
    };
    let ghost builtins_module = GeneratedFileView {
        path: "builtin_classes/mod.rs"@,
        kind: FileKind::BuiltinClassesModule,
    };
    let ghost stats = GeneratedFileView { path: "codegen-stats.txt"@, kind: FileKind::Stats };
    let mut files: Vec<GeneratedFile> = Vec::new();
    files.push(fixed_file("mod.rs", FileKind::CoreModule));
    files.push(fixed_file("central.rs", FileKind::CoreCentral));
    files.push(fixed_file("utilities.rs", FileKind::Utilities));
    let ghost head = file_views(files@);
    proof {
        assert(head =~= seq![
            GeneratedFileView { path: "mod.rs"@, kind: FileKind::CoreModule },
            GeneratedFileView { path: "central.rs"@, kind: FileKind::CoreCentral },
            GeneratedFileView { path: "utilities.rs"@, kind: FileKind::Utilities },
        ]);
    }
    let class_part = generate_class_files(&api.classes, config);
    append_files(&mut files, class_part);
    let ghost before_classes_module = file_views(files@);
    files.push(fixed_file("classes/mod.rs", FileKind::ClassesModule));
    let ghost first_half = file_views(files@);
    proof {
        assert(first_half =~= before_classes_module.push(classes_module));
        assert(first_half =~= head + classes.push(classes_module));
    }
    let builtin_part = generate_builtin_class_files(&api.builtin_classes);
    append_files(&mut files, builtin_part);
    let ghost before_builtins_module = file_views(files@);
    files.push(fixed_file("builtin_classes/mod.rs", FileKind::BuiltinClassesModule));
    let ghost before_stats = file_views(files@);
    files.push(fixed_file("codegen-stats.txt", FileKind::Stats));
    proof {
        assert(before_stats =~= before_builtins_module.push(builtins_module));
        assert(file_views(files@) =~= before_stats.push(stats));
        assert(file_views(files@) =~= first_half + builtins.push(builtins_module).push(stats));
    }
    files
}

/// Generation is a function of its input: two descriptions with the same
/// classes and builtin classes, under the same configuration, give the same
/// files in the same order.
pub proof fn lemma_generation_deterministic(
    classes_a: Seq<Seq<char>>,
    builtins_a: Seq<Seq<char>>,
    config_a: GeneratorConfigView,
    classes_b: Seq<Seq<char>>,
    builtins_b: Seq<Seq<char>>,
    config_b: GeneratorConfigView,
)
    requires
        classes_a == classes_b,
        builtins_a == builtins_b,
        config_a == config_b,
    ensures
        core_files(classes_a, builtins_a, config_a) == core_files(classes_b, builtins_b, config_b),
{
}

// ---------------------------------------------------------------------------
// Replacing the output directory

/// Whether the plan writes a file at `path`.
pub open spec fn planned(path: Seq<char>, plan: Seq<GeneratedFileView>) -> bool {
    exists|i: int| 0 <= i < plan.len() && (#[trigger] plan[i]).path == path
}

/// The paths among `existing` that the plan does not write, in order: what
/// an earlier run has left behind and this run has to remove.
pub open spec fn stale_paths(existing: Seq<Seq<char>>, plan: Seq<GeneratedFileView>) -> Seq<
    Seq<char>,
>
    decreases existing.len(),
{
    if existing.len() == 0 {
        Seq::empty()
    } else {
        let front = stale_paths(existing.drop_last(), plan);
        if planned(existing.last(), plan) {
            front
        } else {
            front.push(existing.last())
        }
    }
}

/// A path is stale exactly when it exists and the plan does not write it.
pub proof fn lemma_stale_paths(
    existing: Seq<Seq<char>>,
    plan: Seq<GeneratedFileView>,
    path: Seq<char>,
)
    ensures
        stale_paths(existing, plan).contains(path) <==> existing.contains(path) && !planned(
            path,
            plan,
        ),
    decreases existing.len(),
{
    if existing.len() > 0 {
        let front = existing.drop_last();
        let last = existing.last();
        lemma_stale_paths(front, plan, path);
        let stale_front = stale_paths(front, plan);
        let stale = stale_paths(existing, plan);
        if existing.contains(path) {
            let i = choose|i: int| 0 <= i < existing.len() && existing[i] == path;
            if i < front.len() {
                assert(front[i] == path);
            }
        }
        if front.contains(path) {
            let i = choose|i: int| 0 <= i < front.len() && front[i] == path;
            assert(existing[i] == path);
        }
        if planned(last, plan) {
            assert(stale == stale_front);
        } else {
            assert(stale == stale_front.push(last));
            if stale.contains(path) {
                let i = choose|i: int| 0 <= i < stale.len() && stale[i] == path;
                if i < stale_front.len() {
                    assert(stale_front[i] == path);
                }
            }
            if stale_front.contains(path) {
                let i = choose|i: int| 0 <= i < stale_front.len() && stale_front[i] == path;
                assert(stale[i] == path);
            }
            if path == last {
                assert(stale[stale_front.len() as int] == path);
                assert(existing[existing.len() - 1] == path);
            }
        }
    }
}

/// The output directory is replaced as a whole: once the stale paths are
/// removed and the plan is written, a path is in the directory exactly when
/// the plan writes it. Nothing of an earlier run is left behind.
pub proof fn lemma_directory_replaced(
    existing: Seq<Seq<char>>,
    plan: Seq<GeneratedFileView>,
    path: Seq<char>,
)
    ensures
        ((existing.contains(path) && !stale_paths(existing, plan).contains(path)) || planned(
            path,
            plan,
        )) <==> planned(path, plan),
{
    lemma_stale_paths(existing, plan, path);
}

/// Whether the plan writes a file at `path`.
pub fn is_planned(path: &str, plan: &Vec<GeneratedFile>) -> (yes: bool)
    ensures
        yes == planned(path@, file_views(plan@)),
{
    let mut i: usize = 0;
    while i < plan.len()
        invariant
            i <= plan.len(),
            forall|k: int| 0 <= k < i ==> (#[trigger] file_views(plan@)[k]).path != path@,
        decreases plan.len() - i,
    {
        if str_eq(plan[i].path.as_str(), path) {
            assert(file_views(plan@)[i as int].path == path@);
            return true;
        }
        i = i + 1;
    }
    false
}

/// The paths among `existing`, the files that the output directory holds,
/// that `plan` does not write, in order. They are to be removed, so that the
/// directory holds the files of this run and no others.
pub fn files_to_remove(existing: &Vec<String>, plan: &Vec<GeneratedFile>) -> (stale: Vec<String>)
    ensures
        texts(stale@) == stale_paths(texts(existing@), file_views(plan@)),
{
    let ghost all = texts(existing@);
    let mut stale: Vec<String> = Vec::new();
    let mut i: usize = 0;
    proof {
        assert(all.take(0) =~= Seq::<Seq<char>>::empty());
        assert(texts(stale@) =~= Seq::<Seq<char>>::empty());
    }
    while i < existing.len()
        invariant
            i <= existing.len(),
            all == texts(existing@),
            texts(stale@) == stale_paths(all.take(i as int), file_views(plan@)),
        decreases existing.len() - i,
    {
        proof {
            assert(all.take(i + 1).drop_last() =~= all.take(i as int));
            assert(all.take(i + 1).last() == existing[i as int]@);
        }
        if !is_planned(existing[i].as_str(), plan) {
            let ghost before = texts(stale@);
            stale.push(existing[i].clone());
            proof {
                assert(texts(stale@) =~= before.push(existing[i as int]@));
            }
        }
        i = i + 1;
    }
    proof {
        assert(all.take(i as int) =~= all);
    }
    stale
}

// ---------------------------------------------------------------------------
// Formatting

/// The number of files in batch `i` of `n` files: twenty in every batch but
/// the last, which takes the rest.
pub open spec fn batch_len(n: int, i: int) -> int {
    if 20 * (i + 1) <= n {
        20
    } else {
        n - 20 * i
    }
}

/// Whether the file at position `k` stands at its place in the batches: in
/// batch `k / 20`, at position `k % 20`.
pub open spec fn batched(out_files: Seq<String>, batches: Seq<Vec<String>>, k: int) -> bool {
    &&& 0 <= k / 20 < batches.len()
    &&& 0 <= k % 20 < batches[k / 20]@.len()
    &&& batches[k / 20]@[k % 20]@ == out_files[k]@
}

/// The written files in the batches in which they are handed to the
/// formatter: twenty at a time, in order, the rest in a last batch. Every
/// file stands in exactly one batch, once, and no batch holds anything else.
pub fn rustfmt_batches(out_files: &Vec<String>) -> (batches: Vec<Vec<String>>)
    ensures
        batches@.len() == (out_files@.len() + 19) / 20,
        forall|i: int| 0 <= i < batches@.len() ==> 1 <= (#[trigger] batches@[i])@.len() <= 20,
        forall|k: int|
            0 <= k < out_files@.len() ==> batches@[k / 20]@[k % 20]@ == out_files@[k]@,
        forall|k: int| 0 <= k < out_files@.len() ==> batched(out_files@, batches@, k),
        forall|i: int|
            0 <= i < batches@.len() ==> (#[trigger] batches@[i])@.len() == batch_len(
                out_files@.len() as int,
                i,
            ),
{
    let len = out_files.len();
    let mut batches: Vec<Vec<String>> = Vec::new();
    let mut start: usize = 0;
    while start < len
        invariant
            len == out_files@.len(),
            start <= len,
            batches@.len() == (start + 19) / 20,
            start < len ==> start == 20 * batches@.len(),
            forall|i: int| 0 <= i < batches@.len() ==> 1 <= (#[trigger] batches@[i])@.len() <= 20,
            forall|k: int| 0 <= k < start ==> batched(out_files@, batches@, k),
            forall|i: int|
                0 <= i < batches@.len() ==> (#[trigger] batches@[i])@.len() == batch_len(
                    start as int,
                    i,
                ),
        decreases len - start,
    {
        let end: usize = if len - start > 20 {
            start + 20
        } else {
            len
        };
        let ghost done = batches@;
        let mut batch: Vec<String> = Vec::new();
        let mut k: usize = start;
        while k < end
            invariant
                start <= k <= end <= len,
                len == out_files@.len(),
                end - start <= 20,
                batch@.len() == k - start,
                forall|j: int|
                    0 <= j < k - start ==> (#[trigger] batch@[j])@ == out_files@[start + j]@,
            decreases end - k,
        {
            batch.push(out_files[k].clone());
            k = k + 1;
        }
        let ghost filled = batch;
        batches.push(batch);
        proof {
            let b = done.len() as int;
            assert(filled@.len() == end - start);
            assert(batches@ == done.push(filled));
            assert forall|i: int| 0 <= i < batches@.len() implies 1 <= (
            #[trigger] batches@[i])@.len() <= 20 by {
                if i < b {
                    assert(batches@[i] == done[i]);
                }
            }
            assert forall|i: int| 0 <= i < batches@.len() implies (#[trigger] batches@[i])@.len()
                == batch_len(end as int, i) by {
                if i < b {
                    assert(batches@[i] == done[i]);
                    assert(done[i]@.len() == batch_len(start as int, i));
                } else {
                    assert(batches@[i] == filled);
                }
            }
            assert forall|q: int| 0 <= q < end implies batched(out_files@, batches@, q) by {
                if q < start {
                    assert(batched(out_files@, done, q));
                    assert(batches@[q / 20] == done[q / 20]);
                } else {
                    assert(start == 20 * b);
                    assert(q / 20 == b);
                    assert(q % 20 == q - start);
                    assert(batches@[b] == filled);
                    assert(filled@[q - start]@ == out_files@[start + (q - start)]@);
                }
            }
        }
        start = end;
    }
    proof {
        assert forall|k: int| 0 <= k < out_files@.len() implies batches@[k / 20]@[k % 20]@
            == out_files@[k]@ by {
            assert(batched(out_files@, batches@, k));
        }
    }
    batches
}

} // verus!
