use route_recognizer_tree::{
    Condition, HttpRequest, Method, Mount, Recognize, RouteResult, RoutingTree, RoutingTreeTrait,
    Slug,
};
use url::Url;

#[derive(Debug)]
struct MockRequest {
    method: http::Method,
    url: Url,
}

#[derive(Eq, PartialEq, Debug)]
enum Recognition {
    Root,
    Foo,
    Bar,
    AccessDenied,
    Subtree,
    NotFound,
    WithId(u64),
}

impl RouteResult for Recognition {
    fn access_denied() -> Self {
        Recognition::AccessDenied
    }

    fn not_found() -> Self {
        Recognition::NotFound
    }
}

fn method_of(m: &http::Method) -> Method {
    if *m == http::Method::GET {
        Method::Get
    } else if *m == http::Method::POST {
        Method::Post
    } else if *m == http::Method::PUT {
        Method::Put
    } else if *m == http::Method::DELETE {
        Method::Delete
    } else if *m == http::Method::PATCH {
        Method::Patch
    } else if *m == http::Method::HEAD {
        Method::Head
    } else if *m == http::Method::OPTIONS {
        Method::Options
    } else if *m == http::Method::CONNECT {
        Method::Connect
    } else if *m == http::Method::TRACE {
        Method::Trace
    } else {
        Method::Extension(m.as_str().to_string())
    }
}

impl HttpRequest for MockRequest {
    fn method(&self) -> Method {
        method_of(&self.method)
    }

    fn path(&self) -> &str {
        self.url.path()
    }
}

fn request(method: http::Method, url: &str) -> MockRequest {
    MockRequest { method, url: Url::parse(url).unwrap() }
}

#[test]
fn test() {
    let tree = RoutingTree::route(|r| r.root(|| Recognition::Root));

    let req = request(http::Method::GET, "http://localhost:9200");
    assert!(tree.recognize(&req).is_ok());
    assert!(tree.recognize(&req).is_ok());
}

#[test]
fn test_path() {
    let tree = RoutingTree::route::<MockRequest, Recognition>(|r| {
        r.root(|| Recognition::Root)?;

        r.on("foo", |_| Err(Recognition::Foo))
    });

    let req = request(http::Method::GET, "http://localhost:9200/foo");
    assert!(tree.recognize(&req).is_ok());
    assert!(tree.recognize(&req).is_ok());
}

#[test]
fn test_sub_path() {
    let tree = RoutingTree::route::<MockRequest, Recognition>(|r| {
        r.root(|| Recognition::Root)?;

        r.on("foo", |r| {
            r.on("bar", |_| Err(Recognition::Bar))?;

            Err(Recognition::Foo)
        })
    });

    let req = request(http::Method::GET, "http://localhost:9200/foo/bar");
    assert!(tree.recognize(&req).is_ok());
    assert!(tree.recognize(&req).is_ok());
}

#[test]
fn test_verbs() {
    let tree = RoutingTree::route::<MockRequest, Recognition>(|r| {
        r.root(|| Recognition::Root)?;

        r.on("foo", |r| r.get(|_| Recognition::Foo))
    });

    let req = request(http::Method::GET, "http://localhost:9200/foo");
    assert!(tree.recognize(&req).is_ok());

    let req = request(http::Method::POST, "http://localhost:9200/foo");
    assert!(tree.recognize(&req).is_err());
}

#[test]
fn test_path_verb_pairs() {
    let tree = RoutingTree::route::<MockRequest, Recognition>(|r| {
        r.root(|| Recognition::Root)?;

        r.on(("foo", Method::Get), |r| r.get(|_| Recognition::Foo))
    });

    let req = request(http::Method::GET, "http://localhost:9200/foo");
    assert!(tree.recognize(&req).is_ok());

    let req = request(http::Method::POST, "http://localhost:9200/foo");
    assert!(tree.recognize(&req).is_err());
}

#[test]
fn test_subroot() {
    let tree = RoutingTree::route(|r| {
        r.root(|| Recognition::Root)?;

        r.on("foo", |r| r.root(|| Recognition::Foo))
    });

    let req = request(http::Method::GET, "http://localhost:9200/foo/");
    let res = tree.recognize(&req);
    assert_eq!(res, Ok(Recognition::Foo));
}

#[test]
fn tree_in_tree() {
    let sub_tree = RoutingTree::route(|r| r.root(|| Recognition::Subtree));
    let tree = RoutingTree::route(|r| {
        r.root(|| Recognition::Root)?;

        r.on("foo", |r| r.mount(&sub_tree))?;

        Ok(())
    });

    let req = request(http::Method::GET, "http://localhost:9200/foo/");
    let res = tree.recognize(&req);
    assert_eq!(res, Ok(Recognition::Subtree));
}

#[test]
fn test_params() {
    let tree = RoutingTree::route(|r| {
        r.root(|| Recognition::Root)?;

        r.on("foo", |r| {
            let id = r.param::<u64>("id")?;

            r.get(|_| Recognition::WithId(*id))
        })
    });

    let req = request(http::Method::GET, "http://localhost:9200/foo/1/");
    let res = tree.recognize(&req);
    assert_eq!(res, Ok(Recognition::WithId(1)));
}

#[test]
fn test_slug_parsing() {
    let tree = RoutingTree::route(|r| {
        r.root(|| Recognition::Root)?;

        r.on("foo", |r| {
            let id = r.param::<Slug<u64>>("id")?;

            r.get(|_| Recognition::WithId(*id))
        })
    });

    for path in ["foo/1-foo-bar", "foo/1"].iter() {
        let req = request(http::Method::GET, &format!("http://localhost:9200/{}", path));
        let res = tree.recognize(&req);
        assert_eq!(res, Ok(Recognition::WithId(1)));
    }
}

#[test]
fn root_matches_only_separator_under_get() {
    let tree = RoutingTree::route::<MockRequest, Recognition>(|r| r.root(|| Recognition::Root));

    let req = request(http::Method::GET, "http://localhost:9200/");
    assert_eq!(tree.recognize(&req), Ok(Recognition::Root));
    assert_eq!(tree.recognize(&req), Ok(Recognition::Root));

    let req = request(http::Method::POST, "http://localhost:9200/");
    assert_eq!(tree.recognize(&req), Err(()));

    let req = request(http::Method::GET, "http://localhost:9200/foo");
    assert_eq!(tree.recognize(&req), Err(()));
}

#[test]
fn literal_descends_only_on_its_prefix() {
    let tree = RoutingTree::route::<MockRequest, Recognition>(|r| {
        r.root(|| Recognition::Root)?;

        r.on("foo", |_| Err(Recognition::Foo))
    });

    let req = request(http::Method::GET, "http://localhost:9200/");
    assert_eq!(tree.recognize(&req), Ok(Recognition::Root));

    let req = request(http::Method::GET, "http://localhost:9200/foo");
    assert_eq!(tree.recognize(&req), Ok(Recognition::Foo));

    let req = request(http::Method::DELETE, "http://localhost:9200/foo/more");
    assert_eq!(tree.recognize(&req), Ok(Recognition::Foo));

    let req = request(http::Method::GET, "http://localhost:9200/bar");
    assert_eq!(tree.recognize(&req), Err(()));

    let req = request(http::Method::GET, "http://localhost:9200/fo");
    assert_eq!(tree.recognize(&req), Err(()));
}

#[test]
fn method_segment_pair_needs_both() {
    let tree = RoutingTree::route::<MockRequest, Recognition>(|r| {
        r.on(("foo", Method::Post), |_| Err(Recognition::Foo))
    });

    let req = request(http::Method::POST, "http://localhost:9200/foo");
    assert_eq!(tree.recognize(&req), Ok(Recognition::Foo));

    let req = request(http::Method::GET, "http://localhost:9200/foo");
    assert_eq!(tree.recognize(&req), Err(()));

    let req = request(http::Method::POST, "http://localhost:9200/bar");
    assert_eq!(tree.recognize(&req), Err(()));
}

#[test]
fn failed_method_pair_leaves_path_for_siblings() {
    let tree = RoutingTree::route::<MockRequest, Recognition>(|r| {
        r.on(("foo", Method::Post), |_| Err(Recognition::Bar))?;

        r.on("foo", |r| r.get(|_| Recognition::Foo))
    });

    let req = request(http::Method::GET, "http://localhost:9200/foo");
    assert_eq!(tree.recognize(&req), Ok(Recognition::Foo));
}

#[test]
fn nested_literals_compose() {
    let tree = RoutingTree::route::<MockRequest, Recognition>(|r| {
        r.on("foo", |r| {
            r.on("bar", |_| Err(Recognition::Bar))?;

            Err(Recognition::Foo)
        })
    });

    let req = request(http::Method::GET, "http://localhost:9200/foo/bar");
    assert_eq!(tree.recognize(&req), Ok(Recognition::Bar));

    let req = request(http::Method::GET, "http://localhost:9200/foo/baz");
    assert_eq!(tree.recognize(&req), Ok(Recognition::Foo));

    let req = request(http::Method::GET, "http://localhost:9200/foo");
    assert_eq!(tree.recognize(&req), Ok(Recognition::Foo));
}

#[test]
fn inner_literal_alone_does_not_match_nested_path() {
    let tree =
        RoutingTree::route::<MockRequest, Recognition>(|r| r.on("bar", |_| Err(Recognition::Bar)));

    let req = request(http::Method::GET, "http://localhost:9200/foo/bar");
    assert_eq!(tree.recognize(&req), Err(()));
}

#[test]
fn consumed_segment_stays_consumed_for_later_siblings() {
    let tree = RoutingTree::route::<MockRequest, Recognition>(|r| {
        r.on("foo", |r| r.on("bar", |_| Err(Recognition::Bar)))?;

        r.root(|| Recognition::Root)
    });

    let req = request(http::Method::GET, "http://localhost:9200/foo/");
    assert_eq!(tree.recognize(&req), Ok(Recognition::Root));
}

#[test]
fn condition_denies_exactly_when_false() {
    let tree = RoutingTree::route::<MockRequest, Recognition>(|r| {
        r.on("foo", |r| {
            r.condition(|r| *r.request_method() == Method::Post)?;

            r.get(|_| Recognition::Foo)?;

            r.post(|_| Recognition::Bar)
        })
    });

    let req = request(http::Method::GET, "http://localhost:9200/foo");
    assert_eq!(tree.recognize(&req), Ok(Recognition::AccessDenied));

    let req = request(http::Method::POST, "http://localhost:9200/foo");
    assert_eq!(tree.recognize(&req), Ok(Recognition::Bar));

    let req = request(http::Method::GET, "http://localhost:9200/other");
    assert_eq!(tree.recognize(&req), Err(()));
}

#[test]
fn each_verb_matches_its_own_method() {
    let tree = RoutingTree::route::<MockRequest, Recognition>(|r| {
        r.get(|_| Recognition::WithId(1))?;
        r.post(|_| Recognition::WithId(2))?;
        r.put(|_| Recognition::WithId(3))?;
        r.delete(|_| Recognition::WithId(4))?;
        r.patch(|_| Recognition::WithId(5))
    });

    let cases = [
        (http::Method::GET, Ok(Recognition::WithId(1))),
        (http::Method::POST, Ok(Recognition::WithId(2))),
        (http::Method::PUT, Ok(Recognition::WithId(3))),
        (http::Method::DELETE, Ok(Recognition::WithId(4))),
        (http::Method::PATCH, Ok(Recognition::WithId(5))),
        (http::Method::HEAD, Err(())),
    ];
    for (method, expected) in cases {
        let req = request(method, "http://localhost:9200/anything");
        assert_eq!(tree.recognize(&req), expected);
    }
}

#[test]
fn extension_method_pair_matches_only_its_name() {
    let tree = RoutingTree::route::<MockRequest, Recognition>(|r| {
        r.on(("foo", Method::Extension("PURGE".to_string())), |_| Err(Recognition::Foo))?;
        r.on("foo", |_| Err(Recognition::Bar))
    });

    let req = request(http::Method::from_bytes(b"PURGE").unwrap(), "http://localhost:9200/foo");
    assert_eq!(tree.recognize(&req), Ok(Recognition::Foo));

    let req = request(http::Method::from_bytes(b"LINK").unwrap(), "http://localhost:9200/foo");
    assert_eq!(tree.recognize(&req), Ok(Recognition::Bar));
}

#[test]
fn extension_method_matches_no_verb() {
    let tree = RoutingTree::route::<MockRequest, Recognition>(|r| {
        r.get(|_| Recognition::Foo)?;
        r.on("foo", |_| Err(Recognition::Bar))
    });

    let purge = http::Method::from_bytes(b"PURGE").unwrap();
    let req = request(purge, "http://localhost:9200/foo");
    assert_eq!(tree.recognize(&req), Ok(Recognition::Bar));
}

#[test]
fn mounted_subtree_matches_its_root_below_prefix() {
    let sub_tree = RoutingTree::route(|r| r.root(|| Recognition::Subtree));
    let tree = RoutingTree::route(|r| {
        r.on("foo", |r| r.mount(&sub_tree))?;

        r.get(|_| Recognition::Foo)
    });

    let req = request(http::Method::GET, "http://localhost:9200/foo/");
    assert_eq!(tree.recognize(&req), Ok(Recognition::Subtree));

    let req = request(http::Method::GET, "http://localhost:9200/foo/x");
    assert_eq!(tree.recognize(&req), Ok(Recognition::Foo));

    let req = request(http::Method::POST, "http://localhost:9200/foo/");
    assert_eq!(tree.recognize(&req), Err(()));
}

#[test]
fn param_reads_segment_or_is_not_found() {
    let tree = RoutingTree::route(|r| {
        r.root(|| Recognition::Root)?;

        r.on("foo", |r| {
            let id = r.param::<u64>("id")?;

            r.get(|_| Recognition::WithId(*id))
        })
    });

    let cases = [
        ("http://localhost:9200/foo/1/", Ok(Recognition::WithId(1))),
        ("http://localhost:9200/foo/42", Ok(Recognition::WithId(42))),
        ("http://localhost:9200/foo/abc/", Ok(Recognition::NotFound)),
        ("http://localhost:9200/foo/", Ok(Recognition::NotFound)),
        ("http://localhost:9200/foo", Ok(Recognition::NotFound)),
        ("http://localhost:9200/foo/18446744073709551616", Ok(Recognition::NotFound)),
        ("http://localhost:9200/foo/-1", Ok(Recognition::NotFound)),
    ];
    for (url, expected) in cases {
        let req = request(http::Method::GET, url);
        assert_eq!(tree.recognize(&req), expected, "{}", url);
    }
}

#[test]
fn param_moves_past_its_segment() {
    let tree = RoutingTree::route(|r| {
        r.on("foo", |r| {
            let id = r.param::<Slug<u64>>("id")?;

            r.on("edit", |r| r.get(|_| Recognition::WithId(*id)))?;

            r.root(|| Recognition::Foo)
        })
    });

    let req = request(http::Method::GET, "http://localhost:9200/foo/3-some-title/edit");
    assert_eq!(tree.recognize(&req), Ok(Recognition::WithId(3)));

    let req = request(http::Method::GET, "http://localhost:9200/foo/3/");
    assert_eq!(tree.recognize(&req), Ok(Recognition::Foo));
}

#[test]
fn param_keeps_its_name() {
    let tree = RoutingTree::route(|r| {
        let id = r.param::<u32>("id")?;
        assert_eq!(id.name(), "id");

        r.get(|_| Recognition::WithId(*id as u64))
    });

    let req = request(http::Method::GET, "http://localhost:9200/7");
    assert_eq!(tree.recognize(&req), Ok(Recognition::WithId(7)));
}

#[test]
fn scenarios() {
    let tree = RoutingTree::route::<MockRequest, Recognition>(|r| r.root(|| Recognition::Root));
    let req = request(http::Method::GET, "http://localhost:9200/");
    assert_eq!(tree.recognize(&req), Ok(Recognition::Root));

    let tree =
        RoutingTree::route::<MockRequest, Recognition>(|r| r.on("foo", |_| Err(Recognition::Foo)));
    let req = request(http::Method::GET, "http://localhost:9200/foo");
    assert_eq!(tree.recognize(&req), Ok(Recognition::Foo));

    let tree = RoutingTree::route::<MockRequest, Recognition>(|r| {
        r.on("foo", |r| r.get(|_| Recognition::Foo))
    });
    let req = request(http::Method::POST, "http://localhost:9200/foo");
    assert_eq!(tree.recognize(&req), Err(()));

    let tree = RoutingTree::route(|r| {
        let id = r.param::<u64>("id");
        let id = match id {
            Ok(id) => id,
            Err(e) => return Err(e),
        };
        r.get(|_| Recognition::WithId(*id))
    });
    let req = request(http::Method::GET, "http://localhost:9200/1/");
    assert_eq!(tree.recognize(&req), Ok(Recognition::WithId(1)));
}

#[test]
fn methods_compare_by_kind_and_name() {
    assert_eq!(Method::Get, Method::Get);
    assert_ne!(Method::Get, Method::Post);
    assert_eq!(Method::Extension("PURGE".to_string()), Method::Extension("PURGE".to_string()));
    assert_ne!(Method::Extension("PURGE".to_string()), Method::Extension("LINK".to_string()));
    assert_ne!(Method::Extension("GET".to_string()), Method::Get);
}
