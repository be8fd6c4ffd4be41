use std::path::PathBuf;

use cdk_mintd::daemon::{
    cln_socket, cln_socket_in, config_file, config_file_in, database_path, expand_path,
    expand_path_in, mint_seed, work_dir, work_dir_in, ConfigFile, HomePath, Location, StartupError,
};
use cdk_mintd::quote_state::{MintQuoteState, StateUpdate};
use cdk_mintd::router::{
    create_mint_router, handle_paid_invoice, watch, Endpoint, Method, PaidInvoice, Route,
    WatchAction, WatchEvent,
};

fn in_home<H>(home: H, parts: &[&str]) -> HomePath<H> {
    HomePath { home, parts: parts.iter().map(|part| part.to_string()).collect() }
}

#[test]
fn routes_of_the_mint() {
    let router = create_mint_router("https://mint.example");
    assert_eq!(router.mint_url, "https://mint.example");
    let routes: Vec<(Method, &str, Endpoint)> = router
        .routes
        .iter()
        .map(|route| (route.method, route.path, route.endpoint))
        .collect();
    assert_eq!(
        routes,
        vec![
            (Method::Get, "/keys", Endpoint::Keys),
            (Method::Get, "/keysets", Endpoint::Keysets),
            (Method::Get, "/keys/:keyset_id", Endpoint::KeysetPubkeys),
            (Method::Post, "/swap", Endpoint::Swap),
            (Method::Post, "/mint/quote/bolt11", Endpoint::MintQuote),
            (Method::Get, "/mint/quote/bolt11/:quote_id", Endpoint::CheckMintQuote),
            (Method::Post, "/mint/bolt11", Endpoint::Mint),
            (Method::Post, "/melt/quote/bolt11", Endpoint::MeltQuote),
            (Method::Get, "/melt/quote/bolt11/:quote_id", Endpoint::CheckMeltQuote),
            (Method::Post, "/melt/bolt11", Endpoint::Melt),
            (Method::Post, "/checkstate", Endpoint::CheckState),
            (Method::Get, "/info", Endpoint::Info),
            (Method::Post, "/restore", Endpoint::Restore),
        ]
    );
}

#[test]
fn no_two_routes_share_a_path() {
    let routes: Vec<Route> = create_mint_router("m").routes;
    for (i, a) in routes.iter().enumerate() {
        for b in &routes[i + 1..] {
            assert_ne!(a.path, b.path);
            assert_ne!(a.endpoint, b.endpoint);
        }
    }
}

#[test]
fn paid_invoice_marks_its_quote() {
    let update = StateUpdate { quote_id: "q".to_string(), state: MintQuoteState::Paid };
    assert_eq!(
        handle_paid_invoice::<()>(Ok(Some("q".to_string()))),
        PaidInvoice::MarkPaid(update)
    );
    assert_eq!(handle_paid_invoice::<()>(Ok(None)), PaidInvoice::NoQuote);
    assert_eq!(handle_paid_invoice(Err("locked")), PaidInvoice::Failed("locked"));
}

#[test]
fn daemon_passes_over_a_failed_search() {
    let update = StateUpdate { quote_id: "q".to_string(), state: MintQuoteState::Paid };
    assert_eq!(
        cdk_mintd::daemon::handle_paid_invoice::<()>(Ok(Some("q".to_string()))),
        Some(update)
    );
    assert_eq!(cdk_mintd::daemon::handle_paid_invoice::<()>(Ok(None)), None);
    assert_eq!(cdk_mintd::daemon::handle_paid_invoice(Err("locked")), None);
}

#[test]
fn watch_goes_on() {
    assert_eq!(watch::<&str>(WatchEvent::Begun), WatchAction::Open);
    assert_eq!(watch::<&str>(WatchEvent::Opened), WatchAction::Next);
    assert_eq!(
        watch::<&str>(WatchEvent::Paid("r".to_string())),
        WatchAction::Handle("r".to_string())
    );
    assert_eq!(watch::<&str>(WatchEvent::Handled(Ok(()))), WatchAction::Next);
    assert_eq!(
        watch(WatchEvent::Handled(Err("locked"))),
        WatchAction::WarnAndNext("locked")
    );
    assert_eq!(watch::<&str>(WatchEvent::Ended), WatchAction::Open);
}

#[test]
fn every_invoice_of_a_stream_is_handed_on_once() {
    let mut stream = vec!["a", "b", "b", "c"].into_iter();
    let mut results = vec![Ok(()), Err("locked"), Ok(()), Err("gone")].into_iter();
    let mut handed_on: Vec<String> = Vec::new();
    let mut logged: Vec<&str> = Vec::new();
    let mut event = WatchEvent::Opened;
    loop {
        event = match watch(event) {
            WatchAction::Open => break,
            WatchAction::Handle(request) => {
                handed_on.push(request);
                WatchEvent::Handled(results.next().unwrap())
            }
            waiting => {
                if let WatchAction::WarnAndNext(error) = waiting {
                    logged.push(error);
                }
                match stream.next() {
                    Some(request) => WatchEvent::Paid(request.to_string()),
                    None => WatchEvent::Ended,
                }
            }
        };
    }
    assert_eq!(handed_on, ["a", "b", "b", "c"]);
    assert_eq!(logged, ["locked", "gone"]);
    assert_eq!(stream.next(), None);
}

#[test]
fn path_without_a_tilde_is_kept() {
    for path in ["/run/cln.sock", "cln.sock", "", "a~/b", "é"] {
        let kept = Some(Location::Verbatim(path.to_string()));
        assert_eq!(expand_path_in::<&str>(path, None), kept);
        assert_eq!(expand_path_in(path, Some("/home/a")), kept);
        assert_eq!(expand_path(path), Some(Location::Verbatim(path.to_string())));
    }
}

#[test]
fn path_with_a_tilde_is_below_the_home_directory() {
    let expanded = |path: &str| expand_path_in(path, Some("/home/a"));
    assert_eq!(
        expanded("~/.lightning/rpc"),
        Some(Location::InHome(in_home("/home/a", &[".lightning/rpc"])))
    );
    assert_eq!(expanded("~/"), Some(Location::InHome(in_home("/home/a", &[""]))));
    assert_eq!(expanded("~user/x"), Some(Location::InHome(in_home("/home/a", &["ser/x"]))));
    assert_eq!(expanded("~/é"), Some(Location::InHome(in_home("/home/a", &["é"]))));
    assert_eq!(expanded("~//etc"), Some(Location::InHome(in_home("/home/a", &["/etc"]))));
}

#[test]
fn expanding_twice_changes_nothing() {
    let path = |location: Location<PathBuf>| match location {
        Location::Verbatim(text) => PathBuf::from(text),
        Location::InHome(below) => {
            let mut path = below.home;
            for part in below.parts {
                path.push(part);
            }
            path
        }
    };
    let home = PathBuf::from("/home/a");
    let once = path(expand_path_in("~/x/y", Some(home.clone())).unwrap());
    assert_eq!(once, home.join("x/y"));
    assert!(once.starts_with(&home));
    let twice = expand_path_in(once.to_str().unwrap(), Some(PathBuf::from("/home/b")));
    assert_eq!(path(twice.unwrap()), once);
    let elsewhere = path(expand_path_in("~//etc", Some(home.clone())).unwrap());
    assert!(!elsewhere.starts_with(&home));
}

#[test]
fn path_with_a_tilde_needs_a_home_directory() {
    assert_eq!(expand_path_in::<&str>("~/x", None), None);
    assert_eq!(expand_path_in::<&str>("~", None), None);
    assert_eq!(expand_path_in::<&str>("~é", None), None);
}

#[test]
fn home_directory_comes_from_the_environment() {
    match expand_path("~/x") {
        Some(Location::InHome(path)) => assert_eq!(path.parts, vec!["x".to_string()]),
        Some(other) => panic!("not below the home directory: {:?}", other),
        None => assert!(work_dir().is_err()),
    }
    match work_dir() {
        Ok(dir) => assert_eq!(dir.parts, vec![".cdk-mintd".to_string()]),
        Err(error) => assert_eq!(error, StartupError::UnknownHomeDir),
    }
    match config_file(None) {
        Ok(ConfigFile::InWorkDir(path)) => {
            assert_eq!(path.parts, vec![".cdk-mintd".to_string(), "config.toml".to_string()]);
        }
        Ok(other) => panic!("not in the daemon's directory: {:?}", other),
        Err(error) => assert_eq!(error, StartupError::UnknownHomeDir),
    }
}

#[test]
fn directory_of_the_daemon() {
    assert_eq!(work_dir_in(Some("/home/a")), Ok(in_home("/home/a", &[".cdk-mintd"])));
    assert_eq!(work_dir_in::<&str>(None), Err(StartupError::UnknownHomeDir));
}

#[test]
fn configuration_file() {
    assert_eq!(config_file_in(Some("/etc/m.toml"), None), Ok(ConfigFile::Given("/etc/m.toml")));
    assert_eq!(
        config_file_in(Some("/etc/m.toml"), Some("/home/a")),
        Ok(ConfigFile::Given("/etc/m.toml"))
    );
    assert_eq!(
        config_file_in(None, Some("/home/a")),
        Ok(ConfigFile::InWorkDir(in_home("/home/a", &[".cdk-mintd", "config.toml"])))
    );
    assert_eq!(config_file_in::<&str>(None, None), Err(StartupError::UnknownHomeDir));
}

#[test]
fn database_on_the_command_line_comes_first() {
    assert_eq!(database_path(Some("/a"), "/b"), "/a");
    assert_eq!(database_path(None, "/b"), "/b");
}

#[test]
fn socket_of_the_node() {
    assert_eq!(
        cln_socket(Some("/run/rpc")),
        Ok(Location::Verbatim("/run/rpc".to_string()))
    );
    assert_eq!(cln_socket(None), Err(StartupError::ClnSocketUndefined));
    assert_eq!(cln_socket_in::<&str>(Some("~/rpc"), None), Err(StartupError::ClnSocketUndefined));
    assert_eq!(
        cln_socket_in(Some("~/rpc"), Some("/home/a")),
        Ok(Location::InHome(in_home("/home/a", &["rpc"])))
    );
}

#[test]
fn startup_errors_in_words() {
    assert_eq!(StartupError::UnknownHomeDir.message(), "Unknown home dir");
    assert_eq!(StartupError::ClnSocketUndefined.message(), "cln socket not defined");
}

#[test]
fn seed_of_a_mnemonic() {
    let seed = mint_seed(
        "abandon abandon abandon abandon abandon abandon abandon abandon abandon abandon abandon about",
    )
    .unwrap();
    let hex: String = seed.iter().map(|byte| format!("{:02x}", byte)).collect();
    assert_eq!(
        hex,
        "5eb00bbddcf069084889a8ab9155568165f5c453ccb85e70811aaed6f6da5fc1\
         9a5ac40b389cd370d086206dec8aa6c43daea6690f20ad3d8d48b2d2ce9e38e4"
    );
}

#[test]
fn what_is_no_mnemonic_gives_the_reason() {
    assert_eq!(
        mint_seed("abandon abandon"),
        Err("mnemonic has an invalid word count: 2. Word count must be 12, 15, 18, 21, or 24"
            .to_string())
    );
}
