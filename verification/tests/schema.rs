use next_fast::config::Config;
use next_fast::pipeline::{action_for, Action, Step};
use next_fast::schema::{basic_schema, schema_path, SCHEMA_PATH, SCHEMA_TEMPLATE};

const EXPECTED: &str = r#"// This is your Prisma schema file,
// learn more about it in the docs: https://pris.ly/d/prisma-schema

generator client {
  provider = "prisma-client-js"
}

datasource db {
  provider = "sqlite"
  url      = env("DATABASE_URL")
}

model User {
  id        Int      @id @default(autoincrement())
  email     String   @unique
  name      String?
  createdAt DateTime @default(now())
  updatedAt DateTime @updatedAt
  posts     Post[]
}

model Post {
  id        Int      @id @default(autoincrement())
  title     String
  content   String?
  published Boolean  @default(false)
  createdAt DateTime @default(now())
  updatedAt DateTime @updatedAt
  author    User     @relation(fields: [authorId], references: [id])
  authorId  Int
}
"#;

#[test]
fn schema_is_the_two_model_document() {
    assert_eq!(basic_schema(), EXPECTED);
    assert_eq!(SCHEMA_TEMPLATE, EXPECTED);
    assert_eq!(basic_schema().as_bytes(), EXPECTED.as_bytes());
}

#[test]
fn schema_has_both_models_and_their_relation() {
    let schema = basic_schema();
    assert!(schema.contains("model User {"));
    assert!(schema.contains("model Post {"));
    assert!(schema.contains("posts     Post[]"));
    assert!(schema.contains("@relation(fields: [authorId], references: [id])"));
    assert!(schema.contains("provider = \"sqlite\""));
    assert!(schema.ends_with("}\n"));
    assert_eq!(schema.len(), 733);
}

#[test]
fn schema_is_the_same_every_time() {
    assert_eq!(basic_schema(), basic_schema());
}

#[test]
fn schema_lies_in_the_toolkit_directory() {
    assert_eq!(schema_path(), "prisma/schema.prisma");
    assert_eq!(SCHEMA_PATH, "prisma/schema.prisma");
}

#[test]
fn schema_write_ignores_the_configuration() {
    let plain = Config::new("one".to_string());
    let other = Config {
        project_name: "two".to_string(),
        typescript: false,
        tailwind: false,
        eslint: false,
        app: false,
        skip_install: true,
    };
    let first = action_for(&plain, Step::WriteSchema);
    let second = action_for(&other, Step::WriteSchema);
    assert_eq!(first, second);
    assert_eq!(
        first,
        Action::WriteFile {
            path: "prisma/schema.prisma".to_string(),
            content: EXPECTED.to_string()
        }
    );
}
