//! The script that gives a worker its environment: variables and bindings.

use std::collections::HashMap;

use vstd::prelude::*;

verus! {

/// What a binding leads to.
#[derive(Debug, Clone, Copy, PartialEq, Eq, Structural)]
pub enum BindingType {
    /// Files that are served.
    Assets,
    /// Objects by their keys.
    Storage,
    /// Values by their keys.
    Kv,
    /// A database.
    Database,
    /// Another worker.
    Worker,
}

/// A binding of a worker.
pub struct BindingInfo {
    pub name: String,
    pub binding_type: BindingType,
}

/// Part 1 of the definition of an assets binding; its name, as a literal, stands before it.
pub const ASSETS_1: &'static str = r#": {
                            fetch: function(input, options) {
                                return new Promise((resolve, reject) => {
                                    const { url, method, headers, body } = __normalizeFetchInput(input, options);
                                    const fetchOptions = { url, method, headers, body };
                                    __nativeBindingFetch("#;

/// Part 2 of the definition of an assets binding; its name, as a literal, stands before it.
pub const ASSETS_2: &'static str = r#", fetchOptions, (meta) => {
                                        const stream = __createNativeStream(meta.streamId);
                                        const response = new Response(stream, {
                                            status: meta.status,
                                            headers: meta.headers
                                        });
                                        response.ok = meta.status >= 200 && meta.status < 300;
                                        response.statusText = meta.statusText;
                                        resolve(response);
                                    }, reject);
                                });
                            }
                        }"#;

/// Part 1 of the definition of a storage binding; its name, as a literal, stands before it.
pub const STORAGE_1: &'static str = r#": {
                            get: (key) => __bindingCall(__nativeBindingStorage, "#;

/// Part 2 of the definition of a storage binding; its name, as a literal, stands before it.
pub const STORAGE_2: &'static str = r#", 'get', { key })
                                .then(r => r.body ? new TextDecoder().decode(r.body) : null),
                            put: (key, value) => {
                                const body = typeof value === 'string' ? new TextEncoder().encode(value) : value;
                                return __bindingCall(__nativeBindingStorage, "#;

/// Part 3 of the definition of a storage binding; its name, as a literal, stands before it.
pub const STORAGE_3: &'static str = r#", 'put', { key, body }).then(() => {});
                            },
                            head: (key) => __bindingCall(__nativeBindingStorage, "#;

/// Part 4 of the definition of a storage binding; its name, as a literal, stands before it.
pub const STORAGE_4: &'static str = r#", 'head', { key })
                                .then(r => ({ size: r.size, etag: r.etag })),
                            list: (options) => __bindingCall(__nativeBindingStorage, "#;

/// Part 5 of the definition of a storage binding; its name, as a literal, stands before it.
pub const STORAGE_5: &'static str = r#", 'list', { prefix: options?.prefix, limit: options?.limit })
                                .then(r => ({ keys: r.keys, truncated: r.truncated })),
                            delete: (key) => __bindingCall(__nativeBindingStorage, "#;

/// Part 6 of the definition of a storage binding; its name, as a literal, stands before it.
pub const STORAGE_6: &'static str = r#", 'delete', { key }).then(() => {}),
                            fetch: function(input, options) {
                                const { url } = __normalizeFetchInput(input, options);
                                const key = new URL(url, 'http://localhost').pathname;
                                return __bindingCall(__nativeBindingStorage, "#;

/// Part 7 of the definition of a storage binding; its name, as a literal, stands before it.
pub const STORAGE_7: &'static str = r#", 'fetch', { key })
                                    .then(r => {
                                        const body = r.streamId !== undefined
                                            ? __createNativeStream(r.streamId)
                                            : r.body;
                                        return new Response(body, { status: r.status, headers: r.headers });
                                    });
                            }
                        }"#;

/// Part 1 of the definition of a key-value binding; its name, as a literal, stands before it.
pub const KV_1: &'static str = r#": (function() {
                            const __n = "#;

/// Part 2 of the definition of a key-value binding; its name, as a literal, stands before it.
pub const KV_2: &'static str = r#";
                            return {
                                get: (key) => __bindingCall(__nativeBindingKv, __n, 'get', { key }).then(r => r.value),
                                put: (key, value, options) => {
                                    const params = { key, value };
                                    if (options?.expiresIn) params.expiresIn = options.expiresIn;
                                    return __bindingCall(__nativeBindingKv, __n, 'put', params).then(() => {});
                                },
                                delete: (key) => __bindingCall(__nativeBindingKv, __n, 'delete', { key }).then(() => {}),
                                list: (options) => {
                                    const params = {};
                                    if (options?.prefix) params.prefix = options.prefix;
                                    if (options?.limit) params.limit = options.limit;
                                    return __bindingCall(__nativeBindingKv, __n, 'list', params).then(r => r.keys);
                                }
                            };
                        })()"#;

/// Part 1 of the definition of a database binding; its name, as a literal, stands before it.
pub const DATABASE_1: &'static str = r#": (function() {
                            const __n = "#;

/// Part 2 of the definition of a database binding; its name, as a literal, stands before it.
pub const DATABASE_2: &'static str = r#";
                            return {
                                query: (sql, params) => __bindingCall(__nativeBindingDatabase, __n, 'query', { sql, params: params || [] }).then(r => r.rows)
                            };
                        })()"#;

/// Part 1 of the definition of a worker binding; its name, as a literal, stands before it.
pub const WORKER_1: &'static str = r#": {
                            fetch: function(input, options) {
                                return new Promise((resolve, reject) => {
                                    const processRequest = async () => {
                                        const normalized = __normalizeFetchInput(input, options);
                                        // Buffer ReadableStream body for serialization
                                        normalized.body = await __bufferBody(normalized.body);
                                        return normalized;
                                    };

                                    processRequest().then((fetchOptions) => {
                                        __nativeBindingWorker("#;

/// Part 2 of the definition of a worker binding; its name, as a literal, stands before it.
pub const WORKER_2: &'static str = r#", fetchOptions, (meta) => {
                                            const stream = __createNativeStream(meta.streamId);
                                            const response = new Response(stream, {
                                                status: meta.status,
                                                headers: meta.headers
                                            });
                                            response.ok = meta.status >= 200 && meta.status < 300;
                                            response.statusText = meta.statusText;
                                            resolve(response);
                                        }, reject);
                                    }).catch(reject);
                                });
                            }
                        }"#;

/// What stands before the environment.
pub const ENV_HEAD: &'static str = r#"Object.defineProperty(globalThis, 'env', {
            value: Object.freeze(Object.assign("#;

/// What stands behind the environment.
pub const ENV_TAIL: &'static str = r#")),
            writable: false,
            enumerable: true,
            configurable: false
        });"#;

/// What stands before the variables of a snapshot.
pub const SNAPSHOT_ENV_HEAD: &'static str = r#"Object.defineProperty(globalThis, 'env', {
            value: Object.freeze("#;

/// What stands behind the variables of a snapshot.
pub const SNAPSHOT_ENV_TAIL: &'static str = r#"),
            writable: false,
            enumerable: true,
            configurable: true
        });"#;

/// The definition of a binding. `name` is its name as a literal.
pub open spec fn binding_definition(kind: BindingType, name: Seq<char>) -> Seq<char> {
    match kind {
        BindingType::Assets => name + ASSETS_1@ + name + ASSETS_2@,
        BindingType::Storage => name + STORAGE_1@ + name + STORAGE_2@ + name + STORAGE_3@ + name
            + STORAGE_4@ + name + STORAGE_5@ + name + STORAGE_6@ + name + STORAGE_7@,
        BindingType::Kv => name + KV_1@ + name + KV_2@,
        BindingType::Database => name + DATABASE_1@ + name + DATABASE_2@,
        BindingType::Worker => name + WORKER_1@ + name + WORKER_2@,
    }
}

/// Texts with a separator between each two.
pub open spec fn joined(parts: Seq<Seq<char>>, sep: Seq<char>) -> Seq<char>
    decreases parts.len(),
{
    if parts.len() == 0 {
        Seq::empty()
    } else if parts.len() == 1 {
        parts[0]
    } else {
        joined(parts.drop_last(), sep) + sep + parts.last()
    }
}

/// What `serde_json::to_string` makes of a text: a JSON string.
pub uninterp spec fn json_string_of(s: Seq<char>) -> Seq<char>;

/// The members of a JSON object for the variables with these names, in this order.
pub open spec fn json_members(m: Map<String, String>, names: Seq<String>) -> Seq<Seq<char>> {
    Seq::new(
        names.len(),
        |i: int| json_string_of(names[i]@) + ":"@ + json_string_of(m[names[i]]@),
    )
}

/// Whether `names` are the names of all variables, each once.
pub open spec fn lists_names(m: Map<String, String>, names: Seq<String>) -> bool {
    names.no_duplicates() && names.to_set() == m.dom()
}

/// Whether `text` is a JSON object of the variables: each of them once, in some order.
pub open spec fn is_json_object(m: Map<String, String>, text: Seq<char>) -> bool {
    exists|names: Seq<String>| #[trigger]
        lists_names(m, names) && text == "{"@ + joined(json_members(m, names), ","@) + "}"@
}

/// Calls `serde_json::to_string` on a text. That does not fail, and the result is named
/// [`json_string_of`].
#[verifier::external_body]
fn json_string(s: &str) -> (r: Option<String>)
    ensures
        r is Some,
        r->0@ == json_string_of(s@),
{
    serde_json::to_string(s).ok()
}

/// Calls `serde_json::to_string` on a map of texts. That does not fail, and gives an object with
/// a member for each entry, its name and its value as JSON strings, without white space. The
/// order of the members is that in which the map is walked; which one that is, is not said.
#[verifier::external_body]
fn json_object(m: &HashMap<String, String>) -> (r: Option<String>)
    ensures
        r is Some,
        is_json_object(m@, r->0@),
{
    serde_json::to_string(m).ok()
}

/// The definitions of bindings.
pub open spec fn definitions(bindings: Seq<BindingInfo>) -> Seq<Seq<char>> {
    Seq::new(
        bindings.len(),
        |i: int| binding_definition(bindings[i].binding_type, json_string_of(bindings[i].name@)),
    )
}

/// The script that defines the environment: the variables, and the bindings where there are any.
pub open spec fn env_script(variables: Seq<char>, bindings: Seq<Seq<char>>) -> Seq<char> {
    ENV_HEAD@ + variables + (if bindings.len() == 0 {
        Seq::empty()
    } else {
        ", {"@ + joined(bindings, ","@) + "}"@
    }) + ENV_TAIL@
}

/// Defines a binding. `name` is its name as a literal.
pub fn define_binding(kind: BindingType, name: &str) -> (r: String)
    ensures
        r@ == binding_definition(kind, name@),
{
    let mut s = name.to_string();
    match kind {
        BindingType::Assets => {
            s.append(ASSETS_1);
            s.append(name);
            s.append(ASSETS_2);
        },
        BindingType::Storage => {
            s.append(STORAGE_1);
            s.append(name);
            s.append(STORAGE_2);
            s.append(name);
            s.append(STORAGE_3);
            s.append(name);
            s.append(STORAGE_4);
            s.append(name);
            s.append(STORAGE_5);
            s.append(name);
            s.append(STORAGE_6);
            s.append(name);
            s.append(STORAGE_7);
        },
        BindingType::Kv => {
            s.append(KV_1);
            s.append(name);
            s.append(KV_2);
        },
        BindingType::Database => {
            s.append(DATABASE_1);
            s.append(name);
            s.append(DATABASE_2);
        },
        BindingType::Worker => {
            s.append(WORKER_1);
            s.append(name);
            s.append(WORKER_2);
        },
    }
    s
}

/// Defines the bindings of a worker, each with its name as a literal.
pub fn define_bindings(bindings: &Vec<BindingInfo>) -> (r: Vec<String>)
    ensures
        r@.map_values(|s: String| s@) == definitions(bindings@),
{
    let mut defs: Vec<String> = Vec::new();
    let mut i: usize = 0;
    while i < bindings.len()
        invariant
            i <= bindings.len(),
            defs.len() == i,
            forall|j: int| 0 <= j < i ==> (#[trigger] defs[j])@ == definitions(bindings@)[j],
        decreases bindings.len() - i,
    {
        let definition = match json_string(bindings[i].name.as_str()) {
            Some(name) => define_binding(bindings[i].binding_type, name.as_str()),
            None => define_binding(bindings[i].binding_type, "\"\""),
        };
        defs.push(definition);
        i = i + 1;
    }
    assert(defs@.map_values(|s: String| s@) =~= definitions(bindings@));
    defs
}

/// Joins texts with a separator.
pub fn join(parts: &Vec<String>, sep: &str) -> (r: String)
    ensures
        r@ == joined(parts@.map_values(|s: String| s@), sep@),
{
    let ghost views = parts@.map_values(|s: String| s@);
    let mut s = String::new();
    let mut i: usize = 0;
    assert(views.take(0) =~= Seq::<Seq<char>>::empty());
    while i < parts.len()
        invariant
            i <= parts.len(),
            views == parts@.map_values(|s: String| s@),
            s@ == joined(views.take(i as int), sep@),
        decreases parts.len() - i,
    {
        if i > 0 {
            s.append(sep);
        }
        s.append(parts[i].as_str());
        assert(views.take(i + 1).drop_last() =~= views.take(i as int));
        assert(views.take(i + 1).last() == parts[i as int]@);
        i = i + 1;
        assert(s@ =~= joined(views.take(i as int), sep@));
    }
    assert(views.take(views.len() as int) =~= views);
    s
}

/// The script that defines the environment, from the variables as JSON and the definitions of
/// the bindings.
pub fn env_code(variables: &str, bindings: &Vec<String>) -> (r: String)
    ensures
        r@ == env_script(variables@, bindings@.map_values(|s: String| s@)),
{
    let mut s = ENV_HEAD.to_string();
    s.append(variables);
    if bindings.len() != 0 {
        s.append(", {");
        let list = join(bindings, ",");
        s.append(list.as_str());
        s.append("}");
    }
    s.append(ENV_TAIL);
    assert(s@ =~= env_script(variables@, bindings@.map_values(|s: String| s@)));
    s
}

/// Whether `text` is what the variables of a worker look like as JSON: an empty object where it
/// has none.
pub open spec fn variables_may_be(env: Option<HashMap<String, String>>, text: Seq<char>) -> bool {
    match env {
        Some(m) => is_json_object(m@, text),
        None => text == "{}"@,
    }
}

/// The variables of a worker as JSON.
pub fn env_json(env: &Option<HashMap<String, String>>) -> (r: String)
    ensures
        variables_may_be(*env, r@),
{
    match env {
        Some(m) => match json_object(m) {
            Some(text) => text,
            None => "{}".to_string(),
        },
        None => "{}".to_string(),
    }
}

/// The script that gives a worker its environment.
pub fn setup_env(env: &Option<HashMap<String, String>>, bindings: &Vec<BindingInfo>) -> (r: String)
    ensures
        exists|variables: Seq<char>| #[trigger]
            variables_may_be(*env, variables) && r@ == env_script(variables, definitions(bindings@)),
{
    let variables = env_json(env);
    let defs = define_bindings(bindings);
    env_code(variables.as_str(), &defs)
}

/// The script that gives a snapshot its variables, from the variables as JSON.
pub fn snapshot_env_code(variables: &str) -> (r: String)
    ensures
        r@ == SNAPSHOT_ENV_HEAD@ + variables@ + SNAPSHOT_ENV_TAIL@,
{
    let mut s = SNAPSHOT_ENV_HEAD.to_string();
    s.append(variables);
    s.append(SNAPSHOT_ENV_TAIL);
    s
}

/// The script that gives a snapshot its variables; there are no bindings yet.
pub fn setup_snapshot_env(env: &HashMap<String, String>) -> (r: String)
    ensures
        exists|variables: Seq<char>| #[trigger]
            is_json_object(env@, variables) && r@ == SNAPSHOT_ENV_HEAD@ + variables
                + SNAPSHOT_ENV_TAIL@,
{
    match json_object(env) {
        Some(text) => snapshot_env_code(text.as_str()),
        None => snapshot_env_code("{}"),
    }
}

/// Joining puts a separator between each two texts, and none before the first or behind the last.
pub proof fn joining_separates(parts: Seq<Seq<char>>, last: Seq<char>, sep: Seq<char>)
    ensures
        joined(Seq::empty(), sep) == Seq::<char>::empty(),
        joined(seq![last], sep) == last,
        parts.len() > 0 ==> joined(parts.push(last), sep) == joined(parts, sep) + sep + last,
{
    assert(parts.push(last).drop_last() =~= parts);
}

/// The script of the environment defines the variables, and behind them the bindings in an object
/// of their own, separated by commas; without bindings there is no such object.
pub proof fn environment_holds_variables_and_bindings(
    variables: Seq<char>,
    bindings: Seq<Seq<char>>,
)
    ensures
        env_script(variables, Seq::empty()) == ENV_HEAD@ + variables + ENV_TAIL@,
        bindings.len() > 0 ==> env_script(variables, bindings) == ENV_HEAD@ + variables + (", {"@
            + joined(bindings, ","@) + "}"@) + ENV_TAIL@,
{
    assert(env_script(variables, Seq::empty()) =~= ENV_HEAD@ + variables + ENV_TAIL@);
}

/// Every binding is defined once, in the order of the bindings, by its kind and with its name as a
/// JSON string; a definition begins with the name.
pub proof fn bindings_are_defined_in_order(bindings: Seq<BindingInfo>, i: int)
    requires
        0 <= i < bindings.len(),
    ensures
        definitions(bindings).len() == bindings.len(),
        definitions(bindings)[i] == binding_definition(
            bindings[i].binding_type,
            json_string_of(bindings[i].name@),
        ),
        json_string_of(bindings[i].name@).is_prefix_of(definitions(bindings)[i]),
{
    let name = json_string_of(bindings[i].name@);
    let d = definitions(bindings)[i];
    assert(d.take(name.len() as int) =~= name);
}

/// A variable becomes a member of the JSON object with its name and its value, and every variable
/// becomes one; a worker without variables has an empty object.
pub proof fn variables_become_members(
    m: Map<String, String>,
    names: Seq<String>,
    i: int,
    text: Seq<char>,
)
    requires
        0 <= i < names.len(),
    ensures
        json_members(m, names).len() == names.len(),
        json_members(m, names)[i] == json_string_of(names[i]@) + ":"@ + json_string_of(
            m[names[i]]@,
        ),
        lists_names(m, names) ==> m.contains_key(names[i]),
        lists_names(m, names) ==> forall|k: String| m.contains_key(k) ==> names.contains(k),
        variables_may_be(None, text) <==> text == "{}"@,
{
    if lists_names(m, names) {
        assert(names.to_set().contains(names[i]));
        assert forall|k: String| m.contains_key(k) implies names.contains(k) by {
            assert(names.to_set().contains(k));
        }
    }
}

/// A binding is defined by the parts of its kind, with its name before each of them.
pub proof fn definitions_hold_the_name_throughout(name: Seq<char>)
    ensures
        binding_definition(BindingType::Assets, name) == name + ASSETS_1@ + name + ASSETS_2@,
        binding_definition(BindingType::Storage, name) == name + STORAGE_1@ + name + STORAGE_2@
            + name + STORAGE_3@ + name + STORAGE_4@ + name + STORAGE_5@ + name + STORAGE_6@ + name
            + STORAGE_7@,
        binding_definition(BindingType::Kv, name) == name + KV_1@ + name + KV_2@,
        binding_definition(BindingType::Database, name) == name + DATABASE_1@ + name + DATABASE_2@,
        binding_definition(BindingType::Worker, name) == name + WORKER_1@ + name + WORKER_2@,
{
}

} // verus!
