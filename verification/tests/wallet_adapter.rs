use xero_core::cluster::ClusterKind;
use xero_core::wallet_adapter::{escape_ts_string, main_tsx, package_json, readme, render, WalletScaffoldContext};

fn ctx() -> WalletScaffoldContext {
    WalletScaffoldContext {
        project_slug: "my-dapp".into(),
        app_name: "My \"Dapp\"".into(),
        cluster: ClusterKind::Devnet,
        rpc_url: "https://api.devnet.solana.com".into(),
    }
}

#[test]
fn scaffold_lists_its_files_in_order() {
    let (files, meta) = render(&ctx());
    let paths: Vec<&str> = files.iter().map(|(p, _)| p.as_str()).collect();
    assert_eq!(
        paths,
        vec![
            "package.json",
            "tsconfig.json",
            "vite.config.ts",
            "index.html",
            "src/main.tsx",
            "src/App.tsx",
            "src/WalletProviders.tsx",
            "src/ConnectButton.tsx",
            "src/app.css",
            "README.md",
            ".gitignore",
        ]
    );
    assert_eq!(meta.entrypoint.as_deref(), Some("src/main.tsx"));
    assert_eq!(meta.start_command, "pnpm dev");
    assert_eq!(meta.api_key_env, None);
    assert_eq!(meta.next_steps.len(), 3);
    assert_eq!(files[10].1, "node_modules\ndist\n.DS_Store\n");
}

#[test]
fn templates_carry_the_context() {
    let c = ctx();
    assert!(package_json(&c).starts_with("{\n  \"name\": \"my-dapp\",\n  \"private\": true,"));
    assert!(main_tsx(&c).contains("<App appName=\"My \\\"Dapp\\\"\" />"));
    let r = readme(&c);
    assert!(r.starts_with("# my-dapp\n\n`@solana/wallet-adapter-react` scaffold"));
    assert!(r.contains("currently **devnet** (RPC: `https://api.devnet.solana.com`)"));
    let (files, _) = render(&c);
    assert!(files[6].1.contains("const RPC_URL = \"https://api.devnet.solana.com\""));
    assert!(files[3].1.contains("<title>My \"Dapp\"</title>"));
}

#[test]
fn strings_are_escaped_for_typescript() {
    assert_eq!(escape_ts_string("a\\b\"c\nd"), "a\\\\b\\\"c\\nd");
    assert_eq!(escape_ts_string("plain"), "plain");
}
