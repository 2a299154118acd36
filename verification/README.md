# gv2ray

The logic of a small GTK client for v2ray and shadowsocks subscriptions,
verified with Verus.

- `src/` is the verified library:
  - `link`: the kind of a subscription link and how a link becomes a node
    (`vmess://` links carry Base64 JSON);
  - `storage`: the storage file that keeps the groups of nodes, written from
    fresh links and read back;
  - `config`: the configuration that starts the core for a node, and the file
    that tells where the core is;
  - `display`: the rows of the node tree and the details of a node;
  - `selection`: which node is selected and which one runs, as a step function
    from state and event to next state, button label and action;
  - `node`, `text`: the node records and the string helpers;
  - `codec`: the calls into `base64` and `serde_json`, whose results are named.
- `app/` is the GTK program: windows, files under `~/.config/gv2ray`, and the
  core process.
- `tests/` runs the library on concrete values.
