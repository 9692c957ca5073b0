//! The `@solana/wallet-adapter-react` scaffold: a minimal React and Vite app
//! that wires the wallet-adapter provider and a connect button, rendered
//! from the project's slug, name, cluster and RPC endpoint.

use vstd::prelude::*;
use crate::cluster::{ClusterKind, cluster_label};
use crate::text::{cat2, cat3, own, push_char};

verus! {

/// What a wallet scaffold is rendered from.
#[derive(Debug, Clone)]
pub struct WalletScaffoldContext {
    pub project_slug: String,
    pub app_name: String,
    pub cluster: ClusterKind,
    pub rpc_url: String,
}

/// How to run a rendered scaffold.
#[derive(Debug, Clone)]
pub struct ScaffoldMeta {
    pub entrypoint: Option<String>,
    pub start_command: String,
    pub api_key_env: Option<String>,
    pub next_steps: Vec<String>,
}

pub const PACKAGE_JSON_HEAD: &'static str = "{\n  \"name\": \"";

pub const PACKAGE_JSON_TAIL: &'static str = "\",\n  \"private\": true,\n  \"version\": \"0.1.0\",\n  \"type\": \"module\",\n  \"scripts\": {\n    \"dev\": \"vite\",\n    \"build\": \"tsc --noEmit && vite build\",\n    \"preview\": \"vite preview\",\n    \"typecheck\": \"tsc --noEmit\"\n  },\n  \"dependencies\": {\n    \"@solana/wallet-adapter-base\": \"^0.9.23\",\n    \"@solana/wallet-adapter-react\": \"^0.15.35\",\n    \"@solana/wallet-adapter-react-ui\": \"^0.9.35\",\n    \"@solana/wallet-adapter-wallets\": \"^0.19.32\",\n    \"@solana/web3.js\": \"^1.95.0\",\n    \"react\": \"^18.3.1\",\n    \"react-dom\": \"^18.3.1\"\n  },\n  \"devDependencies\": {\n    \"@types/react\": \"^18.3.3\",\n    \"@types/react-dom\": \"^18.3.0\",\n    \"@vitejs/plugin-react\": \"^4.3.1\",\n    \"typescript\": \"^5.5.0\",\n    \"vite\": \"^5.3.0\"\n  }\n}\n";

pub const TSCONFIG: &'static str = "{\n  \"compilerOptions\": {\n    \"target\": \"ES2022\",\n    \"lib\": [\"ES2022\", \"DOM\", \"DOM.Iterable\"],\n    \"module\": \"ESNext\",\n    \"moduleResolution\": \"bundler\",\n    \"jsx\": \"react-jsx\",\n    \"strict\": true,\n    \"esModuleInterop\": true,\n    \"resolveJsonModule\": true,\n    \"skipLibCheck\": true,\n    \"isolatedModules\": true,\n    \"allowSyntheticDefaultImports\": true\n  },\n  \"include\": [\"src\"]\n}\n";

pub const VITE_CONFIG: &'static str = "import { defineConfig } from \"vite\"\nimport react from \"@vitejs/plugin-react\"\n\nexport default defineConfig({\n  plugins: [react()],\n  define: {\n    // wallet-adapter-base pulls in a few polyfills; Vite handles the rest.\n    \"process.env\": {},\n  },\n})\n";

pub const INDEX_HTML_HEAD: &'static str = "<!doctype html>\n<html lang=\"en\">\n  <head>\n    <meta charset=\"UTF-8\" />\n    <meta name=\"viewport\" content=\"width=device-width, initial-scale=1.0\" />\n    <title>";

pub const INDEX_HTML_TAIL: &'static str = "</title>\n  </head>\n  <body>\n    <div id=\"root\"></div>\n    <script type=\"module\" src=\"/src/main.tsx\"></script>\n  </body>\n</html>\n";

pub const MAIN_TSX_HEAD: &'static str = "import React from \"react\"\nimport ReactDOM from \"react-dom/client\"\nimport { WalletProviders } from \"./WalletProviders\"\nimport { App } from \"./App\"\nimport \"@solana/wallet-adapter-react-ui/styles.css\"\nimport \"./app.css\"\n\nReactDOM.createRoot(document.getElementById(\"root\")!).render(\n  <React.StrictMode>\n    <WalletProviders>\n      <App appName=\"";

pub const MAIN_TSX_TAIL: &'static str = "\" />\n    </WalletProviders>\n  </React.StrictMode>,\n)\n";

pub const PROVIDERS_TSX_HEAD: &'static str = "import { useMemo, type ReactNode } from \"react\"\nimport { ConnectionProvider, WalletProvider } from \"@solana/wallet-adapter-react\"\nimport { WalletModalProvider } from \"@solana/wallet-adapter-react-ui\"\nimport { LedgerWalletAdapter } from \"@solana/wallet-adapter-wallets\"\n\n// Cluster baked in at scaffold time. Swap this constant to move to\n// mainnet or a custom RPC.\nconst RPC_URL = \"";

pub const PROVIDERS_TSX_TAIL: &'static str = "\"\n\nexport function WalletProviders({ children }: { children: ReactNode }) {\n  // Wallet-standard-aware wallets (Phantom, Solflare, Backpack, etc.)\n  // are auto-discovered. We still bundle Ledger explicitly because the\n  // hardware wallet does not announce itself via wallet-standard.\n  const wallets = useMemo(() => [new LedgerWalletAdapter()], [])\n\n  return (\n    <ConnectionProvider endpoint={RPC_URL}>\n      <WalletProvider wallets={wallets} autoConnect>\n        <WalletModalProvider>{children}</WalletModalProvider>\n      </WalletProvider>\n    </ConnectionProvider>\n  )\n}\n";

pub const CONNECT_BUTTON_TSX: &'static str = "import { WalletMultiButton } from \"@solana/wallet-adapter-react-ui\"\n\nexport function ConnectButton() {\n  return <WalletMultiButton />\n}\n";

pub const APP_TSX: &'static str = "import { useWallet } from \"@solana/wallet-adapter-react\"\nimport { ConnectButton } from \"./ConnectButton\"\n\ninterface AppProps {\n  appName: string\n}\n\nexport function App({ appName }: AppProps) {\n  const { publicKey, connected } = useWallet()\n  return (\n    <main className=\"app\">\n      <header>\n        <h1>{appName}</h1>\n        <ConnectButton />\n      </header>\n      <section className=\"status\">\n        {connected && publicKey ? (\n          <p>\n            Connected as <code>{publicKey.toBase58()}</code>\n          </p>\n        ) : (\n          <p>Click connect to choose a wallet.</p>\n        )}\n      </section>\n    </main>\n  )\n}\n";

pub const APP_CSS: &'static str = "body {\n  margin: 0;\n  font-family: -apple-system, BlinkMacSystemFont, \"Segoe UI\", Roboto, Oxygen, Ubuntu, Cantarell, sans-serif;\n  background: #0a0a0a;\n  color: #f5f5f5;\n}\n.app {\n  min-height: 100vh;\n  padding: 32px;\n}\n.app header {\n  display: flex;\n  justify-content: space-between;\n  align-items: center;\n  gap: 16px;\n  border-bottom: 1px solid rgba(255, 255, 255, 0.08);\n  padding-bottom: 16px;\n  margin-bottom: 24px;\n}\n.status {\n  font-size: 14px;\n  line-height: 1.6;\n}\n.status code {\n  font-family: ui-monospace, SFMono-Regular, Menlo, monospace;\n  word-break: break-all;\n}\n";

pub const README_HEAD: &'static str = "# ";

pub const README_AFTER_SLUG: &'static str = "\n\n`@solana/wallet-adapter-react` scaffold generated by Cadence's Solana\nworkbench. Renders a connect button and reports the connected wallet's\npublic key.\n\n## Run\n\n```bash\npnpm install\npnpm dev\n```\n\n## Cluster\n\nBaked in at scaffold time — currently **";

pub const README_AFTER_CLUSTER: &'static str = "** (RPC: `";

pub const README_TAIL: &'static str = "`).\nUpdate `RPC_URL` in `src/WalletProviders.tsx` to switch clusters.\n\n## What's included\n\n- Wallet-standard-aware wallet discovery (Phantom, Solflare, Backpack,\n  any wallet that announces via the wallet-standard protocol).\n- Ledger support via the explicit `LedgerWalletAdapter`.\n- Auto-connect after first consent.\n\n## What's not\n\n- No staking/signing UI — `useWallet()` gives you `signMessage`,\n  `signTransaction`, and `sendTransaction`; wire those into your feature\n  screens.\n- No mobile deep-linking — see the `mwa-stub` scaffold in the workbench\n  if you need mobile support.\n";

pub const GITIGNORE: &'static str = "node_modules\ndist\n.DS_Store\n";

/// `value` as the inside of a double-quoted TypeScript string: backslashes,
/// double quotes and newlines escaped.
pub open spec fn ts_escaped(value: Seq<char>) -> Seq<char>
    decreases value.len(),
{
    if value.len() == 0 {
        seq![]
    } else {
        ts_escaped(value.drop_last()) + ts_escape_char(value.last())
    }
}

pub open spec fn ts_escape_char(c: char) -> Seq<char> {
    if c == '\\' {
        seq!['\\', '\\']
    } else if c == '"' {
        seq!['\\', '"']
    } else if c == '\n' {
        seq!['\\', 'n']
    } else {
        seq![c]
    }
}

/// Escapes `value` for a double-quoted TypeScript string.
pub fn escape_ts_string(value: &str) -> (s: String)
    ensures
        s@ == ts_escaped(value@),
{
    let v = crate::text::chars_of(value);
    let mut s = String::new();
    let mut i: usize = 0;
    while i < v.len()
        invariant
            i <= v.len(),
            v@ == value@,
            s@ == ts_escaped(v@.subrange(0, i as int)),
        decreases v.len() - i,
    {
        proof {
            assert(v@.subrange(0, i + 1).drop_last() =~= v@.subrange(0, i as int));
        }
        let c = v[i];
        let ghost before = s@;
        if c == '\\' {
            push_char(&mut s, '\\');
            push_char(&mut s, '\\');
        } else if c == '"' {
            push_char(&mut s, '\\');
            push_char(&mut s, '"');
        } else if c == '\n' {
            push_char(&mut s, '\\');
            push_char(&mut s, 'n');
        } else {
            push_char(&mut s, c);
        }
        assert(s@ =~= before + ts_escape_char(c));
        i = i + 1;
    }
    assert(v@.subrange(0, v@.len() as int) =~= v@);
    s
}

pub open spec fn package_json_text(ctx: WalletScaffoldContext) -> Seq<char> {
    PACKAGE_JSON_HEAD@ + ctx.project_slug@ + PACKAGE_JSON_TAIL@
}

pub open spec fn index_html_text(ctx: WalletScaffoldContext) -> Seq<char> {
    INDEX_HTML_HEAD@ + ctx.app_name@ + INDEX_HTML_TAIL@
}

pub open spec fn main_tsx_text(ctx: WalletScaffoldContext) -> Seq<char> {
    MAIN_TSX_HEAD@ + ts_escaped(ctx.app_name@) + MAIN_TSX_TAIL@
}

pub open spec fn providers_tsx_text(ctx: WalletScaffoldContext) -> Seq<char> {
    PROVIDERS_TSX_HEAD@ + ts_escaped(ctx.rpc_url@) + PROVIDERS_TSX_TAIL@
}

pub open spec fn readme_text(ctx: WalletScaffoldContext) -> Seq<char> {
    README_HEAD@ + ctx.project_slug@ + README_AFTER_SLUG@ + cluster_label(ctx.cluster) + README_AFTER_CLUSTER@
        + ctx.rpc_url@ + README_TAIL@
}

/// `package.json`: the project slug as the package name.
pub fn package_json(ctx: &WalletScaffoldContext) -> (s: String)
    ensures
        s@ == package_json_text(*ctx),
{
    cat3(PACKAGE_JSON_HEAD, ctx.project_slug.as_str(), PACKAGE_JSON_TAIL)
}

pub fn tsconfig() -> (s: String)
    ensures
        s@ == TSCONFIG@,
{
    own(TSCONFIG)
}

pub fn vite_config() -> (s: String)
    ensures
        s@ == VITE_CONFIG@,
{
    own(VITE_CONFIG)
}

/// `index.html`: the app name as the page title.
pub fn index_html(ctx: &WalletScaffoldContext) -> (s: String)
    ensures
        s@ == index_html_text(*ctx),
{
    cat3(INDEX_HTML_HEAD, ctx.app_name.as_str(), INDEX_HTML_TAIL)
}

/// `src/main.tsx`: the app name, escaped, handed to `App`.
pub fn main_tsx(ctx: &WalletScaffoldContext) -> (s: String)
    ensures
        s@ == main_tsx_text(*ctx),
{
    let name = escape_ts_string(ctx.app_name.as_str());
    cat3(MAIN_TSX_HEAD, name.as_str(), MAIN_TSX_TAIL)
}

/// `src/WalletProviders.tsx`: the RPC endpoint, escaped, baked in.
pub fn providers_tsx(ctx: &WalletScaffoldContext) -> (s: String)
    ensures
        s@ == providers_tsx_text(*ctx),
{
    let url = escape_ts_string(ctx.rpc_url.as_str());
    cat3(PROVIDERS_TSX_HEAD, url.as_str(), PROVIDERS_TSX_TAIL)
}

pub fn connect_button_tsx() -> (s: String)
    ensures
        s@ == CONNECT_BUTTON_TSX@,
{
    own(CONNECT_BUTTON_TSX)
}

/// `src/App.tsx`; the same for every project.
pub fn app_tsx(_ctx: &WalletScaffoldContext) -> (s: String)
    ensures
        s@ == APP_TSX@,
{
    own(APP_TSX)
}

pub fn css() -> (s: String)
    ensures
        s@ == APP_CSS@,
{
    own(APP_CSS)
}

/// `README.md`: the slug, the cluster and its RPC endpoint.
pub fn readme(ctx: &WalletScaffoldContext) -> (s: String)
    ensures
        s@ == readme_text(*ctx),
{
    let head = cat3(README_HEAD, ctx.project_slug.as_str(), README_AFTER_SLUG);
    let mid = cat3(head.as_str(), ctx.cluster.as_str(), README_AFTER_CLUSTER);
    cat3(mid.as_str(), ctx.rpc_url.as_str(), README_TAIL)
}

pub fn gitignore() -> (s: String)
    ensures
        s@ == GITIGNORE@,
{
    own(GITIGNORE)
}

/// The files of the scaffold, path and contents, in the order they are
/// written.
pub open spec fn scaffold_files(ctx: WalletScaffoldContext) -> Seq<(Seq<char>, Seq<char>)> {
    seq![
        ("package.json"@, package_json_text(ctx)),
        ("tsconfig.json"@, TSCONFIG@),
        ("vite.config.ts"@, VITE_CONFIG@),
        ("index.html"@, index_html_text(ctx)),
        ("src/main.tsx"@, main_tsx_text(ctx)),
        ("src/App.tsx"@, APP_TSX@),
        ("src/WalletProviders.tsx"@, providers_tsx_text(ctx)),
        ("src/ConnectButton.tsx"@, CONNECT_BUTTON_TSX@),
        ("src/app.css"@, APP_CSS@),
        ("README.md"@, readme_text(ctx)),
        (".gitignore"@, GITIGNORE@),
    ]
}

pub open spec fn file_views(files: Seq<(String, String)>) -> Seq<(Seq<char>, Seq<char>)> {
    files.map_values(|f: (String, String)| (f.0@, f.1@))
}

/// Renders the scaffold: its files, and how to install and start it.
pub fn render(ctx: &WalletScaffoldContext) -> (r: (Vec<(String, String)>, ScaffoldMeta))
    ensures
        file_views(r.0@) == scaffold_files(*ctx),
        r.1.entrypoint matches Some(e) && e@ == "src/main.tsx"@,
        r.1.start_command@ == "pnpm dev"@,
        r.1.api_key_env is None,
        crate::sorting::string_views(r.1.next_steps@) == seq![
            "pnpm install"@,
            "pnpm dev  # opens the connect page on http://localhost:5173"@,
            "Swap `CLUSTER` in src/WalletProviders.tsx once you're ready to move past devnet."@,
        ],
{
    let mut files: Vec<(String, String)> = Vec::new();
    files.push((own("package.json"), package_json(ctx)));
    files.push((own("tsconfig.json"), tsconfig()));
    files.push((own("vite.config.ts"), vite_config()));
    files.push((own("index.html"), index_html(ctx)));
    files.push((own("src/main.tsx"), main_tsx(ctx)));
    files.push((own("src/App.tsx"), app_tsx(ctx)));
    files.push((own("src/WalletProviders.tsx"), providers_tsx(ctx)));
    files.push((own("src/ConnectButton.tsx"), connect_button_tsx()));
    files.push((own("src/app.css"), css()));
    files.push((own("README.md"), readme(ctx)));
    files.push((own(".gitignore"), gitignore()));
    assert(file_views(files@) =~= scaffold_files(*ctx));
    let mut next_steps: Vec<String> = Vec::new();
    next_steps.push(own("pnpm install"));
    next_steps.push(own("pnpm dev  # opens the connect page on http://localhost:5173"));
    next_steps.push(own("Swap `CLUSTER` in src/WalletProviders.tsx once you're ready to move past devnet."));
    let meta = ScaffoldMeta {
        entrypoint: Some(own("src/main.tsx")),
        start_command: own("pnpm dev"),
        api_key_env: None,
        next_steps,
    };
    assert(crate::sorting::string_views(meta.next_steps@) =~= seq![
        "pnpm install"@,
        "pnpm dev  # opens the connect page on http://localhost:5173"@,
        "Swap `CLUSTER` in src/WalletProviders.tsx once you're ready to move past devnet."@,
    ]);
    (files, meta)
}

} // verus!

verus! {

/// An escaped value holds no line break, and every double quote in it is
/// preceded by a backslash: it cannot end the TypeScript string it is
/// pasted into.
pub proof fn law_escaped_values_stay_inside_their_string(value: Seq<char>)
    ensures
        forall|i: int| 0 <= i < ts_escaped(value).len() ==> #[trigger] ts_escaped(value)[i] != '\n',
        forall|i: int| 0 <= i < ts_escaped(value).len() && #[trigger] ts_escaped(value)[i] == '"' ==> i > 0
            && ts_escaped(value)[i - 1] == '\\',
    decreases value.len(),
{
    if value.len() > 0 {
        law_escaped_values_stay_inside_their_string(value.drop_last());
        let p = ts_escaped(value.drop_last());
        let e = ts_escape_char(value.last());
        let s = ts_escaped(value);
        assert(s == p + e);
        assert forall|i: int| 0 <= i < s.len() implies #[trigger] s[i] != '\n' by {
            if i < p.len() {
                assert(s[i] == p[i]);
            } else {
                assert(s[i] == e[i - p.len()]);
            }
        }
        assert forall|i: int| 0 <= i < s.len() && #[trigger] s[i] == '"' implies i > 0 && s[i - 1] == '\\' by {
            if i < p.len() {
                assert(s[i] == p[i]);
                assert(s[i - 1] == p[i - 1]);
            } else {
                assert(s[i] == e[i - p.len()]);
                if i - p.len() == 1 {
                    assert(s[i - 1] == e[0]);
                }
            }
        }
    }
}

} // verus!
