use avdan_bridge::registry::{bridge_layout, lookup, NativeCallable};

#[test]
fn layout_has_the_fixed_shape() {
    let layout = bridge_layout();
    assert_eq!(layout.root, "Avdan");
    let names: Vec<&str> = layout.objects.iter().map(|o| o.name.as_str()).collect();
    assert_eq!(names, vec!["Debug", "File", "Clipboard"]);
}

#[test]
fn every_method_resolves() {
    let layout = bridge_layout();
    assert_eq!(lookup(&layout, "Debug", "log"), Some(NativeCallable::DebugLog));
    assert_eq!(lookup(&layout, "File", "read"), Some(NativeCallable::FileRead));
    assert_eq!(lookup(&layout, "File", "write"), Some(NativeCallable::FileWrite));
    assert_eq!(lookup(&layout, "File", "exists"), Some(NativeCallable::FileExists));
    assert_eq!(lookup(&layout, "File", "stat"), Some(NativeCallable::FileStat));
    assert_eq!(lookup(&layout, "Clipboard", "get"), Some(NativeCallable::ClipboardGet));
    assert_eq!(lookup(&layout, "Clipboard", "set"), Some(NativeCallable::ClipboardSet));
}

#[test]
fn unknown_targets_resolve_to_nothing() {
    let layout = bridge_layout();
    assert_eq!(lookup(&layout, "File", "delete"), None);
    assert_eq!(lookup(&layout, "Network", "fetch"), None);
    assert_eq!(lookup(&layout, "file", "read"), None);
}

#[test]
fn rebuilding_the_layout_is_deterministic() {
    let first = bridge_layout();
    let second = bridge_layout();
    assert_eq!(first.root, second.root);
    assert_eq!(first.objects.len(), second.objects.len());
    for (a, b) in first.objects.iter().zip(second.objects.iter()) {
        assert_eq!(a.name, b.name);
        assert_eq!(a.methods.len(), b.methods.len());
        for (ma, mb) in a.methods.iter().zip(b.methods.iter()) {
            assert_eq!(ma.name, mb.name);
            assert_eq!(ma.callable, mb.callable);
        }
    }
}

#[test]
fn method_names_are_unique_per_object() {
    let layout = bridge_layout();
    for object in &layout.objects {
        for i in 0..object.methods.len() {
            for j in (i + 1)..object.methods.len() {
                assert_ne!(object.methods[i].name, object.methods[j].name);
            }
        }
    }
}
