//! The vocabulary of synthetic log lines: component names, module paths,
//! Kubernetes resources, HTTP and gRPC terms, messages and stack frames.
use vstd::prelude::*;

verus! {

pub const LEVELS_LOWER: [&'static str; 5] = ["info", "warn", "error", "debug", "trace"];

pub const LEVELS_UPPER: [&'static str; 5] = ["INFO ", "WARN ", "ERROR", "DEBUG", "TRACE"];

pub const GLOG_PREFIX: [char; 4] = ['I', 'W', 'E', 'F'];

pub const COMPONENTS: [&'static str; 18] = [
    "k8s_client_runtime",
    "controller-manager",
    "scheduler",
    "etcd-server",
    "csi-driver",
    "prometheus-operator",
    "ingress-controller",
    "fluent-bit",
    "fluent-bit::output",
    "kube-proxy",
    "kubelet",
    "containerd",
    "cri-o",
    "calico-node",
    "coredns",
    "node-exporter",
    "vector",
    "loki-promtail",
];

pub const KLOG_FUNCS: [&'static str; 7] = [
    "Warningf",
    "Errorf",
    "Infof",
    "Debugf",
    "ErrorDepth",
    "FatalDepth",
    "V(2).Infof",
];

pub const GO_MODULE_PATHS: [&'static str; 10] = [
    "github.com/kubernetes-csi/external-snapshotter/client/v6/informers/externalversions/factory.go:117",
    "pkg/mod/k8s.io/client-go@v0.25.1/tools/cache/reflector.go:169",
    "k8s.io/apimachinery/pkg/util/wait/wait.go:155",
    "vendor/k8s.io/apiserver/pkg/server/options/etcd.go:208",
    "github.com/prometheus/client_golang/prometheus/registry.go:312",
    "google.golang.org/grpc/server.go:1145",
    "github.com/fsnotify/fsnotify@v1.6.0/inotify.go:120",
    "github.com/spf13/cobra@v1.7.0/command.go:944",
    "github.com/coreos/etcd/etcdserver/api/v3rpc/lease.go:113",
    "go.etcd.io/raft/v3/raft.go:1066",
];

pub const RUST_MODULE_PATHS: [&'static str; 19] = [
    "zinc_enl::handlers::search",
    "zinc_enl::grpc::search",
    "zinc_enl::service::storage::s3",
    "zinc_enl::service::search::cache",
    "zinc_enl::service::search::sql",
    "zinc_enl::core::cache",
    "zinc_enl::handlers::ingest::bulk",
    "zinc_enl::handlers::ingest::json",
    "zinc_enl::handlers::dashboards",
    "zinc_enl::meta::stream",
    "zinc_enl::common::auth",
    "zinc_enl::infra::wal",
    "zinc_enl::infra::cluster",
    "zinc_enl::service::compact",
    "zinc_enl::service::file_list",
    "aws_config::default_provider::credentials",
    "tokio::runtime::scheduler",
    "h2::proto::streams",
    "tower::buffer::worker",
];

pub const K8S_RESOURCES: [&'static str; 18] = [
    "*v1.Pod",
    "*v1.Service",
    "*v1.ConfigMap",
    "*v1.Secret",
    "*v1.Deployment",
    "*v1.ReplicaSet",
    "*v1.StatefulSet",
    "*v1.DaemonSet",
    "*v1.Node",
    "*v1.PersistentVolumeClaim",
    "*v1.VolumeSnapshotClass",
    "*v1.VolumeSnapshotContent",
    "*v1.Endpoints",
    "*v1.Ingress",
    "*v1.NetworkPolicy",
    "*v1.ServiceAccount",
    "*v1.Job",
    "*v1.CronJob",
];

pub const K8S_PLURALS: [&'static str; 18] = [
    "pods",
    "services",
    "configmaps",
    "secrets",
    "deployments",
    "replicasets",
    "statefulsets",
    "daemonsets",
    "nodes",
    "persistentvolumeclaims",
    "volumesnapshotclasses.snapshot.storage.k8s.io",
    "volumesnapshotcontents.snapshot.storage.k8s.io",
    "endpoints",
    "ingresses.networking.k8s.io",
    "networkpolicies.networking.k8s.io",
    "serviceaccounts",
    "jobs.batch",
    "cronjobs.batch",
];

pub const NAMESPACES: [&'static str; 18] = [
    "monitoring",
    "kube-system",
    "default",
    "ingress-nginx",
    "logging",
    "payments",
    "checkout",
    "search",
    "auth",
    "observability",
    "platform",
    "data",
    "operators",
    "argocd",
    "cert-manager",
    "vault",
    "istio-system",
    "linkerd",
];

pub const SERVICE_ACCOUNTS: [&'static str; 12] = [
    "prometheus-k8s",
    "kube-proxy",
    "default",
    "fluent-bit",
    "argocd-application-controller",
    "vault",
    "external-dns",
    "csi-snapshotter",
    "ingress-nginx",
    "cert-manager",
    "node-exporter",
    "alertmanager",
];

pub const ORG_NAMES: [&'static str; 12] = [
    "Ashish_organization_39",
    "Bhargav_organization_29",
    "demo_org1_n976k98gUMT17m3",
    "Acme_organization_07",
    "Initech_organization_13",
    "GlobalCorp_organization_56",
    "WidgetCo_organization_44",
    "Cyberdyne_organization_88",
    "Hooli_organization_21",
    "Pied_Piper_organization_03",
    "Stark_organization_99",
    "Wayne_organization_42",
];

pub const STREAM_NAMES: [&'static str; 14] = [
    "olympics",
    "Sample",
    "test",
    "default",
    "olympics_schema",
    "app_logs",
    "metrics",
    "traces",
    "events",
    "audit",
    "k8s_logs",
    "nginx_access",
    "billing",
    "ingest_pipeline",
];

pub const API_PATH_TEMPLATES: [&'static str; 29] = [
    "/api/{org}/_bulk",
    "/api/{org}/streams?type=logs",
    "/api/{org}/streams?type=metrics",
    "/api/{org}/streams?type=traces",
    "/api/{org}/transform",
    "/api/{org}/_search?type=logs",
    "/api/{org}/{stream}/schema",
    "/api/{org}/{stream}/_json",
    "/api/{org}/{stream}/_multi",
    "/api/{org}/dashboards",
    "/api/{org}/functions",
    "/api/{org}/alerts",
    "/api/{org}/syslog-routes",
    "/api/org_users/{org}",
    "/api/organizations",
    "/api/organizations/passcode/{org}",
    "/api/organizations?page_num=0&page_size=1000&sort_by=id&desc=false&name=",
    "/api/users",
    "/api/users/verifyuser/*****@domain.com",
    "/api/auth/refresh_token",
    "/api/auth/callback?code={uuid}",
    "/api/auth/login",
    "/api/billings/quota_threshold/{org}",
    "/api/billings/invoice/{org}/2024",
    "/api/clusters",
    "/api/nodes/online",
    "/healthz",
    "/readyz",
    "/metrics",
];

pub const HTTP_VERSIONS: [&'static str; 3] = ["HTTP/1.1", "HTTP/2.0", "HTTP/1.0"];

pub const NGINX_USER_AGENTS: [&'static str; 14] = [
    "Fluent-Bit",
    "PostmanRuntime/7.29.0",
    "go-resty/2.7.0 (https://github.com/go-resty/resty)",
    "Mozilla/5.0 (Macintosh; Intel Mac OS X 10_15_7) AppleWebKit/537.36 (KHTML, like Gecko) Chrome/108.0.0.0 Safari/537.36",
    "Mozilla/5.0 (Windows NT 10.0; Win64; x64) AppleWebKit/537.36 (KHTML, like Gecko) Chrome/124.0.0.0 Safari/537.36",
    "Mozilla/5.0 (X11; Linux x86_64; rv:126.0) Gecko/20100101 Firefox/126.0",
    "curl/8.6.0",
    "kube-probe/1.29",
    "Go-http-client/1.1",
    "Go-http-client/2.0",
    "python-requests/2.31.0",
    "okhttp/4.12.0",
    "Java/17.0.9",
    "Vector/0.34.0",
];

pub const NGINX_REFERERS: [&'static str; 9] = [
    "-",
    "https://cloud.zincsearch.com/",
    "https://accounts.google.com/",
    "https://app.example.com/dashboard",
    "https://app.example.com/orders/list",
    "https://app.example.com/search?q=widgets",
    "https://partner.example.com/integrations",
    "https://www.google.com/",
    "https://github.com/openobserve/openobserve",
];

pub const HTTP_METHODS: [&'static str; 7] = ["GET", "POST", "PUT", "DELETE", "OPTIONS", "PATCH", "HEAD"];

pub const HTTP_STATUSES: [u16; 19] = [
    200, 201, 202, 204, 301, 302, 304, 400, 401, 403, 404, 408, 409, 422, 429, 500, 502, 503, 504,
];

pub const GRPC_SERVICES: [&'static str; 8] = [
    "search.v1.SearchService",
    "ingest.v1.Ingester",
    "auth.v1.AuthService",
    "stream.v1.StreamService",
    "metadata.v1.SchemaService",
    "compactor.v1.CompactService",
    "router.v1.RouteService",
    "wal.v1.WalService",
];

pub const GRPC_METHODS: [&'static str; 10] = [
    "Search",
    "Ingest",
    "Authenticate",
    "ListStreams",
    "DescribeStream",
    "Compact",
    "Route",
    "Append",
    "Flush",
    "Subscribe",
];

pub const GRPC_CODES: [&'static str; 17] = [
    "OK",
    "CANCELLED",
    "UNKNOWN",
    "INVALID_ARGUMENT",
    "DEADLINE_EXCEEDED",
    "NOT_FOUND",
    "ALREADY_EXISTS",
    "PERMISSION_DENIED",
    "RESOURCE_EXHAUSTED",
    "FAILED_PRECONDITION",
    "ABORTED",
    "OUT_OF_RANGE",
    "UNIMPLEMENTED",
    "INTERNAL",
    "UNAVAILABLE",
    "DATA_LOSS",
    "UNAUTHENTICATED",
];

pub const DB_TABLES: [&'static str; 16] = [
    "users",
    "orders",
    "payments",
    "carts",
    "sessions",
    "audit_log",
    "invoices",
    "subscriptions",
    "webhooks",
    "feature_flags",
    "tenants",
    "api_keys",
    "billing_events",
    "schema_history",
    "dashboards",
    "alerts",
];

pub const DB_OPS: [&'static str; 5] = ["SELECT", "UPDATE", "DELETE", "INSERT", "UPSERT"];

pub const DB_NAMES: [&'static str; 5] = ["postgres", "mysql", "sqlite", "cockroach", "clickhouse"];

pub const SIMPLE_MESSAGES: [&'static str; 40] = [
    "User login successful",
    "User logout successful",
    "Password reset initiated",
    "Password reset completed",
    "KYC verification completed",
    "Payment processed",
    "Payment failed",
    "Theme preferences updated",
    "System metrics report",
    "Error verifying token: Token is expired",
    "FindOrganizationByIdentifier: Fetch from the database",
    "FindUserByEmail: Fetch from the database",
    "GetMonthlyIngestQuotaByOrgIdentifier: Fetch from the database",
    "GetMonthlySearchQuotaByOrgIdentifier: Fetch from the database",
    "Cache miss; populating from upstream store",
    "Background worker tick: processed zero jobs",
    "Bootstrapping schema registry from disk",
    "Compaction merged seven segments into one",
    "Detected leader change in raft cluster",
    "Regular log entry without sensitive data",
    "Streaming subscriber connected",
    "Streaming subscriber disconnected",
    "Reaping orphaned tasks older than sixty seconds",
    "Reloading TLS certificate from secret",
    "Heartbeat sent to coordinator",
    "Migration applied successfully",
    "Scheduler enqueued backfill batch",
    "Queue depth nominal",
    "Rate limit threshold approached for tenant",
    "Webhook delivery acknowledged",
    "Webhook delivery retried after backoff",
    "Snapshot restore finished cleanly",
    "Permission denied while accessing resource",
    "Configuration reloaded from configmap",
    "Skipping malformed record during decode",
    "Async pipeline drained successfully",
    "Idempotency key recognized; reusing prior response",
    "Cluster membership changed",
    "S3 multipart upload completed",
    "Cron job triggered manual catchup",
];

pub const QUERIER_KINDS: [&'static str; 5] = ["querier", "ingester", "router", "compactor", "alertmanager"];

pub const ROLES: [&'static str; 5] = ["Querier", "Ingester", "Compactor", "Router", "Alertmanager"];

pub const EXCEPTIONS: [&'static str; 10] = [
    "java.net.SocketTimeoutException: Read timed out after 5000ms",
    "io.grpc.StatusRuntimeException: DEADLINE_EXCEEDED: deadline exceeded after 4.999s",
    "psycopg2.OperationalError: server closed the connection unexpectedly",
    "redis.exceptions.ConnectionError: Error 111 connecting to redis:6379. Connection refused.",
    "context deadline exceeded (Client.Timeout exceeded while awaiting headers)",
    "tokio::time::error::Elapsed: deadline has elapsed",
    "anyhow::Error: failed to acquire database connection from pool",
    "kafka.common.errors.NotLeaderForPartitionException: This server is not the leader for that topic-partition.",
    "java.lang.NullPointerException: Cannot invoke method on null reference",
    "OSError: [Errno 28] No space left on device",
];

pub const STACK_FRAMES: [&'static str; 8] = [
    "at com.example.gateway.RequestRouter.dispatch(RequestRouter.java:142)",
    "at com.example.payments.StripeAdapter.charge(StripeAdapter.java:88)",
    "at org.springframework.web.servlet.DispatcherServlet.doDispatch(DispatcherServlet.java:1067)",
    "at io.netty.channel.AbstractChannelHandlerContext.invokeChannelRead(AbstractChannelHandlerContext.java:379)",
    "at runtime.goexit (asm_amd64.s:1650)",
    "at tokio::runtime::task::raw::poll (tokio-1.39.2/src/runtime/task/raw.rs:201)",
    "at hyper::server::conn::http2::serve (hyper-1.0.1/src/server/conn/http2.rs:118)",
    "at sqlalchemy.orm.session.Session.flush (orm/session.py:3845)",
];

pub const MONTHS: [&'static str; 12] = [
        "Jan", "Feb", "Mar", "Apr", "May", "Jun", "Jul", "Aug", "Sep", "Oct", "Nov", "Dec",
    ];

/// CPU counts of cluster nodes.
pub const CPU_COUNTS: [u32; 5] = [2, 4, 8, 16, 32];

/// Query limits.
pub const QUERY_LIMITS: [u32; 5] = [50, 100, 500, 1000, 5000];

/// Service names that gRPC authorities are built from.
pub const GRPC_AUTHORITIES: [&'static str; 5] = ["search", "ingester", "router", "alertmanager", "compactor"];

} // verus!
