//! Settings of the service.

use vstd::prelude::*;
use vstd::string::StringExecFns;

verus! {

/// Everything the service is configured with. The value is built once at
/// startup and handed to each component that needs it.
#[derive(Debug, Clone)]
pub struct Config {
    pub rsa_private_key_path: String,
    pub rsa_public_key_path: String,
    pub product_key_id: String,
    pub base_url: String,
    pub postgres_user: String,
    pub postgres_password: String,
    pub postgres_host: String,
    pub postgres_port: String,
    pub postgres_db: String,
    pub otel_service_name: String,
    pub app_version: String,
    pub deployment_environment: String,
    pub otel_exporter_otlp_endpoint: String,
    pub port: String,
    pub internal_api_key: String,
}

/// The value that an environment gives to `name`: that of the first pair
/// with this name, if there is one.
pub open spec fn lookup(vars: Seq<(String, String)>, name: Seq<char>) -> Option<Seq<char>>
    decreases vars.len(),
{
    if vars.len() == 0 {
        None
    } else if vars[0].0@ == name {
        Some(vars[0].1@)
    } else {
        lookup(vars.skip(1), name)
    }
}

/// The value of a setting: what the environment gives to `name`, or
/// `default` where it gives nothing.
pub open spec fn setting(vars: Seq<(String, String)>, name: Seq<char>, default: Seq<char>) -> Seq<
    char,
> {
    match lookup(vars, name) {
        Some(value) => value,
        None => default,
    }
}

/// Reads one setting from an environment given as pairs of name and value.
pub fn setting_or(vars: &Vec<(String, String)>, name: &str, default: &str) -> (value: String)
    ensures
        value@ == setting(vars@, name@, default@),
{
    let wanted = String::from_str(name);
    let mut i: usize = 0;
    assert(vars@.skip(0) =~= vars@);
    while i < vars.len()
        invariant
            i <= vars.len(),
            wanted@ == name@,
            lookup(vars@, name@) == lookup(vars@.skip(i as int), name@),
        decreases vars.len() - i,
    {
        if vars[i].0 == wanted {
            return vars[i].1.clone();
        }
        assert(vars@.skip(i as int).skip(1) =~= vars@.skip(i + 1));
        i = i + 1;
    }
    String::from_str(default)
}

impl Config {
    /// The address of the credential store.
    pub open spec fn spec_database_url(&self) -> Seq<char> {
        "postgres://"@ + self.postgres_user@ + ":"@ + self.postgres_password@ + "@"@
            + self.postgres_host@ + ":"@ + self.postgres_port@ + "/"@ + self.postgres_db@
    }

    /// The address of the credential store, made of the five settings that
    /// describe it.
    pub fn database_url(&self) -> (url: String)
        ensures
            url@ == self.spec_database_url(),
    {
        String::from_str("postgres://").concat(self.postgres_user.as_str()).concat(":").concat(
            self.postgres_password.as_str(),
        ).concat("@").concat(self.postgres_host.as_str()).concat(":").concat(
            self.postgres_port.as_str(),
        ).concat("/").concat(self.postgres_db.as_str())
    }

    /// The address the service listens on: every interface, at the
    /// configured port.
    pub fn listen_address(&self) -> (address: String)
        ensures
            address@ == "0.0.0.0:"@ + self.port@,
    {
        String::from_str("0.0.0.0:").concat(self.port.as_str())
    }

    /// Builds the configuration from an environment, given as pairs of name
    /// and value. A setting that the environment does not give takes its
    /// default.
    pub fn from_env(vars: &Vec<(String, String)>) -> (config: Config)
        ensures
            config.rsa_private_key_path@ == setting(
                vars@,
                "RSA_PRIVATE_KEY_PATH"@,
                "keys/private_key.pem"@,
            ),
            config.rsa_public_key_path@ == setting(
                vars@,
                "RSA_PUBLIC_KEY_PATH"@,
                "keys/public_key.pem"@,
            ),
            config.product_key_id@ == setting(vars@, "PRODUCT_KEY_ID"@, "product-service-key-1"@),
            config.base_url@ == setting(vars@, "BASE_URL"@, "http://authentication:8082"@),
            config.postgres_user@ == setting(vars@, "POSTGRES_USER"@, "devops"@),
            config.postgres_password@ == setting(vars@, "POSTGRES_PASSWORD"@, "catalogue"@),
            config.postgres_host@ == setting(vars@, "POSTGRES_HOST"@, "products-db"@),
            config.postgres_port@ == setting(vars@, "POSTGRES_PORT"@, "5432"@),
            config.postgres_db@ == setting(vars@, "POSTGRES_DB"@, "products-db"@),
            config.otel_service_name@ == setting(
                vars@,
                "OTEL_SERVICE_NAME"@,
                "craftista-authentication"@,
            ),
            config.app_version@ == setting(vars@, "APP_VERSION"@, "1.0.0"@),
            config.deployment_environment@ == setting(
                vars@,
                "DEPLOYMENT_ENVIRONMENT"@,
                "production"@,
            ),
            config.otel_exporter_otlp_endpoint@ == setting(
                vars@,
                "OTEL_EXPORTER_OTLP_ENDPOINT"@,
                "http://otel-collector:4318/v1/traces"@,
            ),
            config.port@ == setting(vars@, "PORT"@, "8082"@),
            config.internal_api_key@ == setting(vars@, "INTERNAL_API_KEY"@, "a-super-secret-key"@),
    {
        Config {
            rsa_private_key_path: setting_or(vars, "RSA_PRIVATE_KEY_PATH", "keys/private_key.pem"),
            rsa_public_key_path: setting_or(vars, "RSA_PUBLIC_KEY_PATH", "keys/public_key.pem"),
            product_key_id: setting_or(vars, "PRODUCT_KEY_ID", "product-service-key-1"),
            base_url: setting_or(vars, "BASE_URL", "http://authentication:8082"),
            postgres_user: setting_or(vars, "POSTGRES_USER", "devops"),
            postgres_password: setting_or(vars, "POSTGRES_PASSWORD", "catalogue"),
            postgres_host: setting_or(vars, "POSTGRES_HOST", "products-db"),
            postgres_port: setting_or(vars, "POSTGRES_PORT", "5432"),
            postgres_db: setting_or(vars, "POSTGRES_DB", "products-db"),
            otel_service_name: setting_or(vars, "OTEL_SERVICE_NAME", "craftista-authentication"),
            app_version: setting_or(vars, "APP_VERSION", "1.0.0"),
            deployment_environment: setting_or(vars, "DEPLOYMENT_ENVIRONMENT", "production"),
            otel_exporter_otlp_endpoint: setting_or(
                vars,
                "OTEL_EXPORTER_OTLP_ENDPOINT",
                "http://otel-collector:4318/v1/traces",
            ),
            port: setting_or(vars, "PORT", "8082"),
            internal_api_key: setting_or(vars, "INTERNAL_API_KEY", "a-super-secret-key"),
        }
    }
}

} // verus!
