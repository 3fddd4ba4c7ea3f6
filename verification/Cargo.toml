[package]
name = "aws_apis"
version = "0.1.0"
edition = "2021"
publish = false

[dependencies]
regex = "*"
serde_json = "*"
chrono = "*"
colored = "*"
dotenv = "*"
fast_qr = { version = "*", features = ["image"] }
genpdf = { version = "*", features = ["images"] }
image = { version = "*", default-features = false, features = ["png", "jpeg"] }
printpdf = "0.3"
aws-config = { version = "*", default-features = false, features = ["behavior-version-latest", "rt-tokio"] }
aws-credential-types = "*"
aws-types = "*"
aws-sdk-amplify = { version = "*", default-features = false, features = ["behavior-version-latest", "rt-tokio"] }
aws-sdk-dynamodb = { version = "*", default-features = false, features = ["behavior-version-latest", "rt-tokio"] }
aws-sdk-memorydb = { version = "*", default-features = false, features = ["behavior-version-latest", "rt-tokio"] }
aws-sdk-pinpoint = { version = "*", default-features = false, features = ["behavior-version-latest", "rt-tokio"] }
aws-sdk-polly = { version = "*", default-features = false, features = ["behavior-version-latest", "rt-tokio"] }
aws-sdk-rds = { version = "*", default-features = false, features = ["behavior-version-latest", "rt-tokio"] }
aws-sdk-rekognition = { version = "*", default-features = false, features = ["behavior-version-latest", "rt-tokio"] }
aws-sdk-route53 = { version = "*", default-features = false, features = ["behavior-version-latest", "rt-tokio"] }
aws-sdk-s3 = { version = "*", default-features = false, features = ["behavior-version-latest", "rt-tokio"] }
aws-sdk-sesv2 = { version = "*", default-features = false, features = ["behavior-version-latest", "rt-tokio"] }
aws-sdk-sns = { version = "*", default-features = false, features = ["behavior-version-latest", "rt-tokio"] }
aws-sdk-transcribe = { version = "*", default-features = false, features = ["behavior-version-latest", "rt-tokio"] }
aws-sdk-translate = { version = "*", default-features = false, features = ["behavior-version-latest", "rt-tokio"] }
