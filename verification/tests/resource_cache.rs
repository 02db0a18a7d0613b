use cypher::mesh::Mesh;
use cypher::mesh::RES_STATE_READ;
use cypher::resource::Create;
use cypher::resource::ResourceManager;
use cypher::resource::ResTT;

struct Doc {
    tag: String,
    ready: bool,
}

impl Create for Doc {
    fn create(name: &str) -> Doc {
        Doc { tag: name.to_owned(), ready: false }
    }

    fn inittt(&mut self) {
        self.ready = true;
    }
}

#[test]
fn request_same_name_returns_same_index() {
    // Scenario: a second request for a name in flight returns the same
    // slot and spawns no second construction.
    let mut rm: ResourceManager<Doc> = ResourceManager::new();
    let (i1, r1) = rm.request_use_new("mesh/cube.obj");
    assert_eq!(i1, 0);
    assert!(r1.is_none());
    let (i2, r2) = rm.request_use_new("mesh/cube.obj");
    assert_eq!(i2, 0);
    assert!(r2.is_none());
    let tasks = rm.take_tasks();
    assert_eq!(tasks.len(), 1);
    assert_eq!(tasks[0].name().as_str(), "mesh/cube.obj");
    assert_eq!(tasks[0].index(), 0);
}

#[test]
fn indices_are_assigned_in_request_order() {
    // Scenario: "a" gets 0, "b" gets 1, and "a" still answers 0 later.
    let mut rm: ResourceManager<Doc> = ResourceManager::new();
    let (ia, _) = rm.request_use_new("a");
    let (ib, _) = rm.request_use_new("b");
    assert_eq!(ia, 0);
    assert_eq!(ib, 1);
    let (ia2, _) = rm.request_use_new("a");
    assert_eq!(ia2, 0);
    for t in rm.take_tasks() {
        t.run();
    }
    let (ia3, _) = rm.request_use_new("a");
    assert_eq!(ia3, 0);
    let (ib2, _) = rm.request_use_new("b");
    assert_eq!(ib2, 1);
}

#[test]
fn poll_sees_value_only_after_worker_finished() {
    // Scenario: polling right after the request answers "not ready";
    // once the construction ran, the same poll hands the value out.
    let mut rm: ResourceManager<Doc> = ResourceManager::new();
    let handle: ResTT<Doc> = ResTT::new("doc/a");
    let mut handle = handle;
    assert!(cypher::resource::resource_get(&mut rm, &mut handle).is_none());
    assert_eq!(handle.resource, Some(0));
    // Still pending: the task has not run.
    assert!(cypher::resource::resource_get(&mut rm, &mut handle).is_none());
    for t in rm.take_tasks() {
        t.run();
    }
    let got = cypher::resource::resource_get(&mut rm, &mut handle);
    let doc = got.expect("value must be visible after the worker ran");
    assert_eq!(doc.tag, "doc/a");
    assert!(doc.ready);
    // Once ready, the slot never reports "loading" again.
    for _ in 0..3 {
        let again = cypher::resource::resource_get(&mut rm, &mut handle);
        assert_eq!(again.expect("ready slots stay ready").tag, "doc/a");
    }
}

#[test]
fn blocking_resolution_returns_the_value() {
    // Scenario: the blocking path returns the constructed value once
    // the worker completed, even though the non-blocking poll never ran.
    let mut rm: ResourceManager<Doc> = ResourceManager::new();
    let handle: ResTT<Doc> = ResTT::new("doc/b");
    let mut handle = handle;
    assert!(cypher::resource::resource_get(&mut rm, &mut handle).is_none());
    for t in rm.take_tasks() {
        t.run();
    }
    let got = handle.get_from_manager_instant(&mut rm);
    let doc = got.expect("blocking resolution must see the finished value");
    assert_eq!(doc.tag, "doc/b");
    assert!(doc.ready);
}

#[test]
fn blocking_resolution_right_after_request_constructs() {
    // Scenario: blocking resolution immediately after the request, with
    // the construction still queued: the manager runs it and returns
    // the value rather than stalling.
    let mut rm: ResourceManager<Doc> = ResourceManager::new();
    let mut handle: ResTT<Doc> = ResTT::new("doc/now");
    assert!(cypher::resource::resource_get(&mut rm, &mut handle).is_none());
    assert_eq!(rm.loading_count(), 1);
    let doc = handle
        .get_from_manager_instant(&mut rm)
        .expect("queued construction is run before waiting");
    assert_eq!(doc.tag, "doc/now");
    assert!(doc.ready);
}

#[test]
fn dropped_construction_surfaces_as_error() {
    // If the construction task is dropped without running, the slot
    // settles as failed and the blocking path reports it as an error
    // instead of stalling or panicking.
    let mut rm: ResourceManager<Doc> = ResourceManager::new();
    let mut handle: ResTT<Doc> = ResTT::new("doc/lost");
    assert!(cypher::resource::resource_get(&mut rm, &mut handle).is_none());
    drop(rm.take_tasks());
    assert!(handle.get_from_manager_instant(&mut rm).is_err());
}

#[test]
fn loading_counter_tracks_outstanding_loads() {
    // Scenario: the counter equals the number of names still loading,
    // and reaches zero once every requested slot is ready.
    let mut rm: ResourceManager<Doc> = ResourceManager::new();
    assert_eq!(rm.loading_count(), 0);
    let (_, _) = rm.request_use_new("a");
    assert_eq!(rm.loading_count(), 1);
    let (_, _) = rm.request_use_new("b");
    assert_eq!(rm.loading_count(), 2);
    let (_, _) = rm.request_use_new("a");
    assert_eq!(rm.loading_count(), 2);
    for t in rm.take_tasks() {
        t.run();
    }
    // Delivery is observed at the next poll of each slot.
    assert_eq!(rm.loading_count(), 2);
    let (_, ra) = rm.request_use_new("a");
    assert!(ra.is_some());
    assert_eq!(rm.loading_count(), 1);
    let (_, rb) = rm.request_use_new("b");
    assert!(rb.is_some());
    assert_eq!(rm.loading_count(), 0);
}

#[test]
fn private_instance_never_touches_the_manager() {
    // Scenario: a handle with a private instance resolves by itself;
    // no sequence of resolve calls registers its name anywhere.
    let mut rm: ResourceManager<Doc> = ResourceManager::new();
    let mut handle = ResTT::new_with_instance("doc/private", Doc {
        tag: "owned".to_owned(),
        ready: true,
    });
    assert!(handle.is_instance());
    for _ in 0..3 {
        let got = cypher::resource::resource_get(&mut rm, &mut handle);
        assert_eq!(got.expect("private instance always resolves").tag, "owned");
    }
    let got_ref = handle.get_ref(&rm);
    assert_eq!(got_ref.expect("shared resolution uses the instance too").tag, "owned");
    // The manager never saw the name: it hands out slot 0 for it now.
    let (i, _) = rm.request_use_new("doc/private");
    assert_eq!(i, 0);
    assert_eq!(rm.loading_count(), 1);
}

#[test]
fn synchronous_path_constructs_on_the_calling_thread() {
    let mut rm: ResourceManager<Doc> = ResourceManager::new();
    let i = rm.request_use_no_proc_new("doc/sync");
    assert_eq!(i, 0);
    assert_eq!(rm.loading_count(), 0);
    let doc = rm.get_mut_or_panic(i);
    assert_eq!(doc.tag, "doc/sync");
    assert!(doc.ready);
    let again = rm.request_use_no_proc_new("doc/sync");
    assert_eq!(again, 0);
    let value = rm.get_or_create("doc/sync");
    assert_eq!(value.tag, "doc/sync");
}

#[test]
fn handle_from_synchronous_request_is_bound() {
    let mut rm: ResourceManager<Mesh> = ResourceManager::new();
    let handle = rm.request_use_no_proc_tt("mesh/quad");
    assert_eq!(handle.name, "mesh/quad");
    assert_eq!(handle.resource, Some(0));
    assert!(handle.instance.is_none());
    let handle2 = rm.get_handle_instant("mesh/quad");
    assert_eq!(handle2.resource, Some(0));
    let mesh = rm.get_mut_or_panic(0);
    assert_eq!(mesh.name, "mesh/quad");
    assert_eq!(mesh.state, RES_STATE_READ);
}

#[test]
fn handle_with_instance_clone_from_manager() {
    let mut rm: ResourceManager<Mesh> = ResourceManager::new();
    let handle = rm.request_use_no_proc_tt_instance("mesh/tri");
    assert!(handle.instance.is_some());
    assert_eq!(handle.instance.as_ref().unwrap().name, "mesh/tri");
    assert_eq!(handle.resource, Some(0));
}

#[test]
fn loaded_iter_lists_ready_values_in_slot_order() {
    let mut rm: ResourceManager<Doc> = ResourceManager::new();
    rm.request_use_no_proc_new("one");
    let (_, _) = rm.request_use_new("pending");
    rm.request_use_no_proc_new("two");
    let ready: Vec<&Doc> = rm.loaded_iter();
    assert_eq!(ready.len(), 2);
    assert_eq!(ready[0].tag, "one");
    assert_eq!(ready[1].tag, "two");
}

#[test]
fn handle_creates_its_own_instance_on_demand() {
    let mut handle: ResTT<Doc> = ResTT::new("doc/inst");
    assert!(!handle.is_instance());
    {
        let doc = handle.get_or_create_instance();
        assert_eq!(doc.tag, "doc/inst");
        assert!(doc.ready);
        doc.tag.push('!');
    }
    // The instance is kept, not rebuilt.
    let doc = handle.get_or_create_instance();
    assert_eq!(doc.tag, "doc/inst!");
    handle.reset();
    assert!(handle.is_instance());
}

#[test]
fn resolving_by_name_caches_the_index() {
    let mut rm: ResourceManager<Doc> = ResourceManager::new();
    let mut handle: ResTT<Doc> = ResTT::new("doc/cache");
    assert_eq!(handle.resource, None);
    let _ = cypher::resource::resource_get_ref(&mut rm, &mut handle);
    assert_eq!(handle.resource, Some(0));
    for t in rm.take_tasks() {
        t.run();
    }
    let got = cypher::resource::resource_get_ref(&mut rm, &mut handle);
    assert_eq!(got.expect("ready after the worker ran").tag, "doc/cache");
    let got2 = handle.get_or_load_ref(&mut rm);
    assert_eq!(got2.unwrap().tag, "doc/cache");
}

#[test]
fn as_ref_instant_builds_fresh_names_synchronously() {
    let mut rm: ResourceManager<Doc> = ResourceManager::new();
    let mut handle: ResTT<Doc> = ResTT::new("doc/instant");
    let got = handle.as_ref_instant(&mut rm);
    let doc = got.expect("a fresh name is built on this thread");
    assert_eq!(doc.tag, "doc/instant");
    assert_eq!(handle.resource, Some(0));
}
