[package]
name = "push_dispatch"
version = "0.1.0"
edition = "2021"
publish = false

[dependencies]
dotenv = "=0.15.0"
expo_push_notification_client = "=2.1.0"
serde_json = "=1.0.151"
supabase_rs = "=0.8.0"
tokio = { version = "=1.53.2", features = ["macros", "rt-multi-thread"] }
vercel_runtime = "=1.1.6"
