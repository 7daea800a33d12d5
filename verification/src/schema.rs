//! The schema file that every generated project starts with.

use vstd::prelude::*;

verus! {

/// Where the schema file lies, relative to the project's directory.
pub const SCHEMA_PATH: &'static str = "prisma/schema.prisma";

/// The schema file: a SQLite data source, the client generator, and two
/// models, `User` and `Post`, where a user has many posts.
pub const SCHEMA_TEMPLATE: &'static str = r#"// This is your Prisma schema file,
// learn more about it in the docs: https://pris.ly/d/prisma-schema

generator client {
  provider = "prisma-client-js"
}

datasource db {
  provider = "sqlite"
  url      = env("DATABASE_URL")
}

model User {
  id        Int      @id @default(autoincrement())
  email     String   @unique
  name      String?
  createdAt DateTime @default(now())
  updatedAt DateTime @updatedAt
  posts     Post[]
}

model Post {
  id        Int      @id @default(autoincrement())
  title     String
  content   String?
  published Boolean  @default(false)
  createdAt DateTime @default(now())
  updatedAt DateTime @updatedAt
  author    User     @relation(fields: [authorId], references: [id])
  authorId  Int
}
"#;

/// The path of the schema file, as a fresh string.
pub fn schema_path() -> (path: String)
    ensures
        path@ == SCHEMA_PATH@,
{
    SCHEMA_PATH.to_owned()
}

/// The content of the schema file, as a fresh string. It takes no argument:
/// every project gets the same text.
pub fn basic_schema() -> (content: String)
    ensures
        content@ == SCHEMA_TEMPLATE@,
{
    SCHEMA_TEMPLATE.to_owned()
}

} // verus!
