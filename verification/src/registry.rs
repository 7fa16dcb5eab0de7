use vstd::prelude::*;
use crate::value::str_eq;

verus! {

broadcast use vstd::seq::group_seq_axioms;

/// The host-implemented callables of the bridge, one per capability
/// method. The dispatch path maps a looked-up callable to its
/// argument decoder and result builder.
#[derive(Clone, Copy, PartialEq, Eq, Structural, Debug)]
pub enum NativeCallable {
    DebugLog,
    FileRead,
    FileWrite,
    FileExists,
    FileStat,
    ClipboardGet,
    ClipboardSet,
}

/// One method of a capability object: a name bound to a callable.
pub struct MethodBinding {
    pub name: String,
    pub callable: NativeCallable,
}

/// A named bundle of method bindings, installed as one property of the
/// bridge's root object.
pub struct CapabilityObject {
    pub name: String,
    pub methods: Vec<MethodBinding>,
}

/// The whole capability tree: a root name and the capability objects
/// in their installation order.
pub struct BridgeLayout {
    pub root: String,
    pub objects: Vec<CapabilityObject>,
}

pub open spec fn methods_model(ms: Seq<MethodBinding>) -> Seq<(Seq<char>, NativeCallable)> {
    Seq::new(ms.len(), |i: int| (ms[i].name@, ms[i].callable))
}

pub open spec fn objects_model(os: Seq<CapabilityObject>) -> Seq<
    (Seq<char>, Seq<(Seq<char>, NativeCallable)>),
> {
    Seq::new(os.len(), |i: int| (os[i].name@, methods_model(os[i].methods@)))
}

/// The fixed script-visible shape of the bridge: the capability
/// objects in their construction order — Debug, File, Clipboard — each
/// with its methods.
pub open spec fn layout_spec() -> Seq<(Seq<char>, Seq<(Seq<char>, NativeCallable)>)> {
    seq![
        ("Debug"@, seq![("log"@, NativeCallable::DebugLog)]),
        (
            "File"@,
            seq![
                ("read"@, NativeCallable::FileRead),
                ("write"@, NativeCallable::FileWrite),
                ("exists"@, NativeCallable::FileExists),
                ("stat"@, NativeCallable::FileStat),
            ],
        ),
        ("Clipboard"@, seq![("get"@, NativeCallable::ClipboardGet), ("set"@, NativeCallable::ClipboardSet)]),
    ]
}

/// The name of the root object installed into the global scope.
pub open spec fn root_name_spec() -> Seq<char> {
    "Avdan"@
}

fn method(name: &str, callable: NativeCallable) -> (r: MethodBinding)
    ensures
        r.name@ == name@,
        r.callable == callable,
{
    MethodBinding { name: name.to_owned(), callable }
}

/// Builds the capability tree, exactly in the shape of `layout_spec`.
/// The host constructs it once per engine context and installs it
/// before any script runs.
pub fn bridge_layout() -> (r: BridgeLayout)
    ensures
        r.root@ == root_name_spec(),
        objects_model(r.objects@) == layout_spec(),
{
    let mut debug_methods: Vec<MethodBinding> = Vec::new();
    debug_methods.push(method("log", NativeCallable::DebugLog));

    let mut file_methods: Vec<MethodBinding> = Vec::new();
    file_methods.push(method("read", NativeCallable::FileRead));
    file_methods.push(method("write", NativeCallable::FileWrite));
    file_methods.push(method("exists", NativeCallable::FileExists));
    file_methods.push(method("stat", NativeCallable::FileStat));

    let mut clip_methods: Vec<MethodBinding> = Vec::new();
    clip_methods.push(method("get", NativeCallable::ClipboardGet));
    clip_methods.push(method("set", NativeCallable::ClipboardSet));

    let mut objects: Vec<CapabilityObject> = Vec::new();
    objects.push(CapabilityObject { name: "Debug".to_owned(), methods: debug_methods });
    objects.push(CapabilityObject { name: "File".to_owned(), methods: file_methods });
    objects.push(CapabilityObject { name: "Clipboard".to_owned(), methods: clip_methods });

    let r = BridgeLayout { root: "Avdan".to_owned(), objects };
    proof {
        assert(objects_model(r.objects@) =~~= layout_spec());
    }
    r
}

/// The callable a method name selects within one object: the first
/// binding of that name.
pub open spec fn method_lookup_spec(
    ms: Seq<(Seq<char>, NativeCallable)>,
    name: Seq<char>,
) -> Option<NativeCallable>
    decreases ms,
{
    if ms.len() == 0 {
        None
    } else if ms[0].0 == name {
        Some(ms[0].1)
    } else {
        method_lookup_spec(ms.drop_first(), name)
    }
}

/// The callable an object and method name select in the tree.
pub open spec fn lookup_spec(
    os: Seq<(Seq<char>, Seq<(Seq<char>, NativeCallable)>)>,
    object: Seq<char>,
    name: Seq<char>,
) -> Option<NativeCallable>
    decreases os,
{
    if os.len() == 0 {
        None
    } else if os[0].0 == object {
        method_lookup_spec(os[0].1, name)
    } else {
        lookup_spec(os.drop_first(), object, name)
    }
}

/// Resolves a script call target against the table, as `lookup_spec`
/// describes: the first object of that name, then the first of its
/// methods with that name.
pub fn lookup(layout: &BridgeLayout, object: &str, name: &str) -> (r: Option<NativeCallable>)
    ensures
        r == lookup_spec(objects_model(layout.objects@), object@, name@),
{
    let ghost m = objects_model(layout.objects@);
    let mut i: usize = 0;
    proof {
        assert(m.skip(0) =~= m);
    }
    while i < layout.objects.len()
        invariant
            i <= layout.objects.len(),
            m == objects_model(layout.objects@),
            m.len() == layout.objects@.len(),
            lookup_spec(m, object@, name@) == lookup_spec(m.skip(i as int), object@, name@),
        decreases layout.objects.len() - i,
    {
        if str_eq(layout.objects[i].name.as_str(), object) {
            proof {
                assert(m.skip(i as int)[0] == m[i as int]);
            }
            let ghost mm = methods_model(layout.objects@[i as int].methods@);
            let obj = &layout.objects[i];
            let mut k: usize = 0;
            proof {
                assert(mm.skip(0) =~= mm);
            }
            while k < obj.methods.len()
                invariant
                    k <= obj.methods.len(),
                    *obj == layout.objects@[i as int],
                    i < layout.objects@.len(),
                    m == objects_model(layout.objects@),
                    mm == methods_model(obj.methods@),
                    mm.len() == obj.methods@.len(),
                    lookup_spec(m, object@, name@) == method_lookup_spec(mm, name@),
                    method_lookup_spec(mm, name@) == method_lookup_spec(mm.skip(k as int), name@),
                decreases obj.methods.len() - k,
            {
                if str_eq(obj.methods[k].name.as_str(), name) {
                    proof {
                        assert(mm.skip(k as int)[0] == mm[k as int]);
                    }
                    return Some(obj.methods[k].callable);
                }
                proof {
                    assert(mm.skip(k as int)[0] == mm[k as int]);
                    assert(mm.skip(k as int).drop_first() =~= mm.skip(k as int + 1));
                }
                k += 1;
            }
            proof {
                assert(mm.skip(obj.methods@.len() as int) =~= Seq::<
                    (Seq<char>, NativeCallable),
                >::empty());
            }
            return None;
        }
        proof {
            assert(m.skip(i as int)[0] == m[i as int]);
            assert(m.skip(i as int).drop_first() =~= m.skip(i as int + 1));
        }
        i += 1;
    }
    proof {
        assert(m.skip(layout.objects@.len() as int) =~= Seq::<
            (Seq<char>, Seq<(Seq<char>, NativeCallable)>),
        >::empty());
    }
    None
}

/// Names are unique: no two capability objects share a name, and no
/// two methods of one object share a name.
pub proof fn lemma_layout_names_unique()
    ensures
        forall|i: int, j: int|
            0 <= i < j < layout_spec().len() ==> layout_spec()[i].0 != layout_spec()[j].0,
        forall|o: int, i: int, j: int|
            0 <= o < layout_spec().len() && 0 <= i < j < layout_spec()[o].1.len()
                ==> layout_spec()[o].1[i].0 != layout_spec()[o].1[j].0,
{
    reveal_strlit("Debug");
    reveal_strlit("File");
    reveal_strlit("Clipboard");
    reveal_strlit("log");
    reveal_strlit("read");
    reveal_strlit("write");
    reveal_strlit("exists");
    reveal_strlit("stat");
    reveal_strlit("get");
    reveal_strlit("set");
    assert forall|i: int, j: int|
        0 <= i < j < layout_spec().len() implies layout_spec()[i].0 != layout_spec()[j].0 by {
        reveal_strlit("Debug");
        reveal_strlit("File");
        reveal_strlit("Clipboard");
        assert(layout_spec()[0].0 == "Debug"@);
        assert(layout_spec()[1].0 == "File"@);
        assert(layout_spec()[2].0 == "Clipboard"@);
        assert(layout_spec()[0].0 != layout_spec()[1].0);
        assert(layout_spec()[0].0 != layout_spec()[2].0);
        assert(layout_spec()[1].0 != layout_spec()[2].0);
    }
    assert forall|o: int, i: int, j: int|
        0 <= o < layout_spec().len() && 0 <= i < j < layout_spec()[o].1.len()
            implies layout_spec()[o].1[i].0 != layout_spec()[o].1[j].0 by {
        reveal_strlit("log");
        reveal_strlit("read");
        reveal_strlit("write");
        reveal_strlit("exists");
        reveal_strlit("stat");
        reveal_strlit("get");
        reveal_strlit("set");
        if o == 1 {
            assert(layout_spec()[1].1[0].0 == "read"@);
            assert(layout_spec()[1].1[1].0 == "write"@);
            assert(layout_spec()[1].1[2].0 == "exists"@);
            assert(layout_spec()[1].1[3].0 == "stat"@);
            assert(layout_spec()[1].1[0].0 != layout_spec()[1].1[1].0);
            assert(layout_spec()[1].1[0].0 != layout_spec()[1].1[2].0);
            assert("read"@[0] == 'r' && "stat"@[0] == 's');
            assert(layout_spec()[1].1[0].0 != layout_spec()[1].1[3].0);
            assert(layout_spec()[1].1[1].0 != layout_spec()[1].1[2].0);
            assert(layout_spec()[1].1[1].0 != layout_spec()[1].1[3].0);
            assert(layout_spec()[1].1[2].0 != layout_spec()[1].1[3].0);
        } else if o == 2 {
            assert(layout_spec()[2].1[0].0 == "get"@);
            assert(layout_spec()[2].1[1].0 == "set"@);
            assert("get"@[0] == 'g' && "set"@[0] == 's');
            assert(layout_spec()[2].1[0].0 != layout_spec()[2].1[1].0);
        }
    }
}

/// The global bindings after installing the bridge: the root name maps
/// to the capability tree; every other binding is untouched.
pub open spec fn install_spec(
    globals: Map<Seq<char>, Seq<(Seq<char>, Seq<(Seq<char>, NativeCallable)>)>>,
) -> Map<Seq<char>, Seq<(Seq<char>, Seq<(Seq<char>, NativeCallable)>)>> {
    globals.insert(root_name_spec(), layout_spec())
}

/// Installing the bridge twice into the same context equals installing
/// it once: re-registration is a deterministic overwrite.
pub proof fn lemma_install_idempotent(
    globals: Map<Seq<char>, Seq<(Seq<char>, Seq<(Seq<char>, NativeCallable)>)>>,
)
    ensures
        install_spec(install_spec(globals)) == install_spec(globals),
{
    assert(install_spec(install_spec(globals)) =~= install_spec(globals));
}

} // verus!
